use diadro::messages::{id_text, parse_id, FLUSH_WINDOW_MICROS};
use diadro::{MousePosition, Outbox, Pos2, RequestInfo, WsMessages};

fn moved(x: i32, y: i32) -> WsMessages {
    WsMessages::MousePosition(MousePosition {
        rq: RequestInfo { board: String::from("Main"), user: String::from("me") },
        position: Pos2::new(x, y),
    })
}

fn positions(batch: &Vec<WsMessages>) -> Vec<Pos2> {
    batch
        .iter()
        .map(|message| match message {
            WsMessages::MousePosition(m) => m.position,
            _ => panic!("only pointer moves were sent"),
        })
        .collect()
}

#[test]
fn two_moves_within_the_window_leave_in_one_batch() {
    let mut outbox = Outbox::new();
    assert!(outbox.send_buffered(moved(1, 1), 1_000).is_none());
    assert!(outbox.send_buffered(moved(2, 2), 1_050).is_none());
    assert_eq!(outbox.len(), 2);
    let batch = outbox.send_buffered(moved(3, 3), 1_101).unwrap();
    assert_eq!(positions(&batch), vec![Pos2::new(1, 1), Pos2::new(2, 2)]);
    assert_eq!(outbox.len(), 1);
}

#[test]
fn the_window_is_a_hundred_microseconds() {
    assert_eq!(FLUSH_WINDOW_MICROS, 100);
    let mut outbox = Outbox::new();
    assert!(outbox.send_buffered(moved(1, 1), 500).is_none());
    assert!(outbox.send_buffered(moved(2, 2), 600).is_none());
    assert!(outbox.send_buffered(moved(3, 3), 400).is_none());
    let batch = outbox.send_buffered(moved(4, 4), 601).unwrap();
    assert_eq!(batch.len(), 3);
}

#[test]
fn the_clock_starts_again_after_a_batch() {
    let mut outbox = Outbox::new();
    assert!(outbox.send_buffered(moved(1, 1), 0).is_none());
    assert!(outbox.send_buffered(moved(2, 2), 1_000).is_some());
    assert!(outbox.send_buffered(moved(3, 3), 5_000).is_none());
    assert!(outbox.send_buffered(moved(4, 4), 5_100).is_none());
    let batch = outbox.send_buffered(moved(5, 5), 5_101).unwrap();
    assert_eq!(positions(&batch), vec![Pos2::new(2, 2), Pos2::new(3, 3), Pos2::new(4, 4)]);
    assert_eq!(positions(&outbox.flush()), vec![Pos2::new(5, 5)]);
    assert_eq!(outbox.len(), 0);
    assert!(outbox.flush().is_empty());
}

#[test]
fn identifiers_as_text() {
    assert_eq!(id_text(0), "0");
    assert_eq!(id_text(7), "7");
    assert_eq!(id_text(10), "10");
    assert_eq!(id_text(1234567890), "1234567890");
    assert_eq!(id_text(u64::MAX), "18446744073709551615");
}

#[test]
fn text_as_identifiers() {
    assert_eq!(parse_id("0"), Some(0));
    assert_eq!(parse_id("007"), Some(7));
    assert_eq!(parse_id("18446744073709551615"), Some(u64::MAX));
    assert_eq!(parse_id("18446744073709551616"), None);
    assert_eq!(parse_id("99999999999999999999999"), None);
    assert_eq!(parse_id(""), None);
    assert_eq!(parse_id("12a"), None);
    assert_eq!(parse_id("-1"), None);
    assert_eq!(parse_id(" 1"), None);
    for id in [1u64, 9, 10, 99, 100, 4096, u64::MAX - 1] {
        assert_eq!(parse_id(&id_text(id)), Some(id));
    }
}

#[test]
fn a_header_copies_itself() {
    let rq = RequestInfo { board: String::from("Main"), user: String::from("me") };
    let copy = rq.copy();
    assert_eq!(copy.board, "Main");
    assert_eq!(copy.user, "me");
}
