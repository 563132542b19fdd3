use diadro::text::{insert_text, move_cursor, remove_char_at, CursorKey};

fn chars(s: &str) -> Vec<char> {
    s.chars().collect()
}

#[test]
fn text_is_inserted_at_the_cursor() {
    assert_eq!(insert_text(&chars("held"), 2, &chars("ara")), (chars("hearald"), 5));
    assert_eq!(insert_text(&chars("held"), 0, &chars("up")), (chars("upheld"), 2));
    assert_eq!(insert_text(&chars("held"), 4, &chars("!")), (chars("held!"), 5));
    assert_eq!(insert_text(&chars("held"), 9, &chars("!")), (chars("held!"), 10));
    assert_eq!(insert_text(&chars(""), 0, &chars("")), (chars(""), 0));
    assert_eq!(insert_text(&chars("a"), usize::MAX, &chars("bc")), (chars("abc"), usize::MAX));
}

#[test]
fn the_character_before_the_position_is_removed() {
    assert_eq!(remove_char_at(&chars("held"), 2), chars("hld"));
    assert_eq!(remove_char_at(&chars("held"), 4), chars("hel"));
    assert_eq!(remove_char_at(&chars("held"), 1), chars("eld"));
    assert_eq!(remove_char_at(&chars("held"), 0), chars("held"));
    assert_eq!(remove_char_at(&chars("held"), 5), chars("held"));
    assert_eq!(remove_char_at(&chars(""), 0), chars(""));
    assert_eq!(remove_char_at(&chars(""), usize::MAX), chars(""));
}

#[test]
fn keys_move_the_cursor_within_the_text() {
    assert_eq!(move_cursor(CursorKey::Left, 2, 4), 1);
    assert_eq!(move_cursor(CursorKey::Left, 0, 4), 0);
    assert_eq!(move_cursor(CursorKey::Right, 2, 4), 3);
    assert_eq!(move_cursor(CursorKey::Right, 4, 4), 4);
    assert_eq!(move_cursor(CursorKey::Right, 7, 4), 7);
    assert_eq!(move_cursor(CursorKey::Home, 3, 4), 0);
    assert_eq!(move_cursor(CursorKey::Home, 0, 4), 0);
    assert_eq!(move_cursor(CursorKey::End, 1, 4), 4);
    assert_eq!(move_cursor(CursorKey::End, 6, 4), 6);
}
