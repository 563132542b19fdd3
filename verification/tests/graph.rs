use diadro::graph::{drag_mode_of, resize, EPSILON, POINT_OVER_TOLERANCE};
use diadro::{
    AddArrow, AddFigure, CellType, Contained, DragMode, EdgeVertex, GraphState, GraphUI, MousePosition,
    MxCellState, Pos2, Rect, RequestInfo, Vec2, WsMessages,
};

fn px(x: f32, y: f32) -> Pos2 {
    Pos2::new((x * 1000.0).round() as i32, (y * 1000.0).round() as i32)
}

fn board() -> GraphUI {
    GraphUI::new(String::from("Main"), String::from("me"))
}

fn place(ui: &mut GraphUI, from: Pos2, to: Pos2) {
    ui.on_drag_start(from);
    ui.on_drag_move(to);
    ui.on_drag_release(to);
}

fn header() -> RequestInfo {
    RequestInfo { board: String::from("Main"), user: String::from("other") }
}

fn frame_of(ui: &GraphUI, id: u64) -> Option<Rect> {
    ui.cells().get(id).and_then(|cell| cell.frame())
}

#[test]
fn placing_a_rectangle_and_drawing_an_edge_from_it() {
    let mut ui = board();
    ui.on_drag_start(px(0., 0.));
    assert!(matches!(ui.state(), GraphState::Tool(_)));
    ui.on_drag_move(px(60., 20.));
    ui.on_drag_release(px(100., 50.));

    assert!(matches!(ui.state(), GraphState::Nothing));
    assert_eq!(ui.cells().len(), 1);
    let cell = ui.cells().get(1).unwrap();
    assert!(matches!(cell.cell_type, CellType::Connectable(_)));
    assert_eq!(cell.frame(), Some(Rect { min: px(0., 0.), max: px(100., 50.) }));
    assert_eq!(cell.connection_points().len(), 12);
    assert_eq!(cell.state(), MxCellState::Free);

    ui.on_hover(px(50., 25.));
    assert!(matches!(ui.state(), GraphState::Hovering(1)));
    ui.on_click();
    assert_eq!(ui.cells().selected(), Some(1));

    ui.on_hover(px(100., 25.));
    ui.on_drag_start(px(100., 25.));
    assert!(matches!(ui.state(), GraphState::Arrow(_)));
    ui.on_drag_move(px(150., 40.));
    ui.on_drag_release(px(200., 50.));

    assert!(matches!(ui.state(), GraphState::Nothing));
    assert_eq!(ui.cells().len(), 2);
    let edge = ui.cells().extract_edge(2).unwrap();
    assert_eq!(edge.get_start(), EdgeVertex::Cell(1, 4));
    assert_eq!(edge.get_end(), EdgeVertex::Pos(px(200., 50.)));
    assert_eq!(edge.points(), &vec![px(100., 25.), px(200., 50.)]);
    assert_eq!(ui.cells().extract_connectable(1).unwrap().edges, vec![2]);

    let events = ui.take_events();
    assert_eq!(events.len(), 4);
    assert!(matches!(&events[0], WsMessages::AddFigure(_)));
    assert!(matches!(&events[1], WsMessages::MousePosition(m) if m.position == px(50., 25.) && m.rq.user == "me"));
    assert!(matches!(&events[2], WsMessages::MousePosition(m) if m.position == px(100., 25.)));
    assert!(matches!(&events[3], WsMessages::AddArrow(a) if a.start_id == "1" && a.end_id.is_empty()));
    assert!(ui.take_events().is_empty());
}

#[test]
fn placing_tells_the_others() {
    let mut ui = board();
    place(&mut ui, px(0., 0.), px(100., 50.));
    let events = ui.take_events();
    assert_eq!(events.len(), 1);
    match &events[0] {
        WsMessages::AddFigure(figure) => {
            assert_eq!(figure.rect, Rect { min: px(0., 0.), max: px(100., 50.) });
            assert_eq!(figure.text, "");
            assert_eq!(figure.rq.board, "Main");
            assert_eq!(figure.rq.user, "me");
        }
        _ => panic!("a placed figure is told as a figure"),
    }
}

#[test]
fn an_edge_released_on_a_connection_point_is_bound_to_it() {
    let mut ui = board();
    place(&mut ui, px(0., 0.), px(100., 50.));
    place(&mut ui, px(200., 0.), px(300., 100.));
    ui.on_hover(px(50., 25.));
    ui.on_click();
    ui.on_drag_start(px(100., 25.));
    ui.on_hover(px(201., 49.));
    match ui.state() {
        GraphState::Arrow(edge) => assert_eq!(edge.get_end(), EdgeVertex::Cell(2, 10)),
        _ => panic!("the edge is still being drawn"),
    }
    ui.on_drag_move(px(150., 49.));
    match ui.state() {
        GraphState::Arrow(edge) => assert_eq!(edge.get_end(), EdgeVertex::Pos(px(150., 49.))),
        _ => panic!("the edge is still being drawn"),
    }
    ui.on_drag_release(px(203., 52.));
    let edge = ui.cells().extract_edge(3).unwrap();
    assert_eq!(edge.get_end(), EdgeVertex::Cell(2, 10));
    assert_eq!(edge.points(), &vec![px(100., 25.), px(200., 50.)]);
    assert_eq!(ui.cells().extract_connectable(2).unwrap().edges, vec![3]);
    let events = ui.take_events();
    match events.last() {
        Some(WsMessages::AddArrow(arrow)) => {
            assert_eq!(arrow.start_id, "1");
            assert_eq!(arrow.end_id, "2");
        }
        _ => panic!("a drawn edge is told as an arrow"),
    }
}

#[test]
fn an_edge_does_not_snap_to_the_cell_it_starts_on() {
    let mut ui = board();
    place(&mut ui, px(0., 0.), px(100., 50.));
    ui.on_hover(px(50., 25.));
    ui.on_click();
    ui.on_drag_start(px(100., 25.));
    ui.on_drag_release(px(100., 37.));
    let edge = ui.cells().extract_edge(2).unwrap();
    assert_eq!(edge.get_end(), EdgeVertex::Pos(px(100., 37.)));
}

#[test]
fn hover_marks_the_top_cell_and_click_selects_it() {
    let mut ui = board();
    place(&mut ui, px(0., 0.), px(100., 100.));
    place(&mut ui, px(300., 300.), px(400., 400.));
    ui.on_hover(px(50., 50.));
    assert_eq!(ui.cells().get(1).unwrap().state(), MxCellState::Hovered);
    ui.on_hover(px(350., 350.));
    assert_eq!(ui.cells().get(1).unwrap().state(), MxCellState::Free);
    assert_eq!(ui.cells().get(2).unwrap().state(), MxCellState::Hovered);
    ui.on_click();
    assert_eq!(ui.cells().get(2).unwrap().state(), MxCellState::Selected);
    ui.on_hover(px(50., 50.));
    ui.on_click();
    assert_eq!(ui.cells().get(1).unwrap().state(), MxCellState::Selected);
    assert_eq!(ui.cells().get(2).unwrap().state(), MxCellState::Free);
    ui.on_hover(px(200., 200.));
    assert!(matches!(ui.state(), GraphState::Nothing));
    ui.on_click();
    assert_eq!(ui.cells().selected(), None);
}

#[test]
fn double_click_opens_the_hovered_node_and_moves_nothing() {
    let mut ui = board();
    place(&mut ui, px(0., 0.), px(100., 100.));
    assert_eq!(ui.on_double_click(), None);
    ui.on_hover(px(50., 50.));
    assert_eq!(ui.on_double_click(), Some(1));
    assert_eq!(frame_of(&ui, 1), Some(Rect { min: px(0., 0.), max: px(100., 100.) }));
}

#[test]
fn dragging_the_inside_moves_the_cell_step_by_step() {
    let mut ui = board();
    place(&mut ui, px(0., 0.), px(100., 100.));
    ui.on_hover(px(50., 50.));
    ui.on_drag_start(px(50., 50.));
    assert!(matches!(ui.state(), GraphState::Dragged(1, DragMode::Move(_))));
    assert_eq!(ui.cells().get(1).unwrap().state(), MxCellState::Dragging);
    ui.on_drag_move(px(60., 55.));
    assert_eq!(frame_of(&ui, 1), Some(Rect { min: px(10., 5.), max: px(110., 105.) }));
    ui.on_drag_move(px(70., 55.));
    assert_eq!(frame_of(&ui, 1), Some(Rect { min: px(20., 5.), max: px(120., 105.) }));
    ui.on_hover(px(0., 0.));
    ui.on_drag_start(px(0., 0.));
    assert!(matches!(ui.state(), GraphState::Dragged(1, DragMode::Move(_))));
    ui.on_drag_release(px(75., 60.));
    let cell = ui.cells().get(1).unwrap();
    assert_eq!(cell.frame(), Some(Rect { min: px(25., 10.), max: px(125., 110.) }));
    assert_eq!(cell.connection_points()[0], px(50., 10.));
    assert_eq!(cell.state(), MxCellState::Free);
    assert!(matches!(ui.state(), GraphState::Nothing));
}

#[test]
fn bound_edges_follow_a_moved_cell() {
    let mut ui = board();
    place(&mut ui, px(0., 0.), px(100., 50.));
    ui.on_hover(px(50., 25.));
    ui.on_click();
    ui.on_drag_start(px(100., 25.));
    ui.on_drag_release(px(200., 50.));
    ui.on_hover(px(50., 25.));
    ui.on_drag_start(px(50., 25.));
    ui.on_drag_release(px(60., 25.));
    assert_eq!(ui.cells().extract_edge(2).unwrap().points(), &vec![px(110., 25.), px(200., 50.)]);
}

#[test]
fn dragging_a_corner_moves_its_two_sides() {
    let mut ui = board();
    place(&mut ui, px(0., 0.), px(100., 100.));
    ui.on_hover(px(50., 50.));
    ui.on_drag_start(px(1., 1.));
    assert!(matches!(ui.state(), GraphState::Dragged(1, DragMode::ResizeTLtoBR(_))));
    ui.on_drag_release(px(20., 30.));
    assert_eq!(frame_of(&ui, 1), Some(Rect { min: px(20., 30.), max: px(100., 100.) }));
    assert_eq!(ui.cells().get(1).unwrap().connection_points()[0], px(40., 30.));
}

#[test]
fn each_mode_moves_the_sides_it_names() {
    let rect = Rect { min: px(0., 0.), max: px(100., 100.) };
    let to = px(30., 40.);
    let anchor = px(0., 0.);
    assert_eq!(resize(rect, DragMode::Move(anchor), to), rect);
    assert_eq!(resize(rect, DragMode::Extend, to), Rect { min: px(0., 0.), max: to });
    assert_eq!(resize(rect, DragMode::ResizeLtoR(anchor), to), Rect { min: px(30., 0.), max: px(100., 100.) });
    assert_eq!(resize(rect, DragMode::ResizeRtoL(anchor), to), Rect { min: px(0., 0.), max: px(30., 100.) });
    assert_eq!(resize(rect, DragMode::ResizeTtoB(anchor), to), Rect { min: px(0., 40.), max: px(100., 100.) });
    assert_eq!(resize(rect, DragMode::ResizeBtoT(anchor), to), Rect { min: px(0., 0.), max: px(100., 40.) });
    assert_eq!(resize(rect, DragMode::ResizeTLtoBR(anchor), to), Rect { min: to, max: px(100., 100.) });
    assert_eq!(resize(rect, DragMode::ResizeBRtoTL(anchor), to), Rect { min: px(0., 0.), max: to });
    assert_eq!(resize(rect, DragMode::ResizeTRtoBL(anchor), to), Rect { min: px(0., 40.), max: px(30., 100.) });
    assert_eq!(resize(rect, DragMode::ResizeBLtoTR(anchor), to), Rect { min: px(30., 0.), max: px(100., 40.) });
}

#[test]
fn the_hit_decides_the_drag() {
    let p = px(1., 2.);
    assert_eq!(drag_mode_of(Contained::InArea, p), DragMode::Move(p));
    assert_eq!(drag_mode_of(Contained::ConnectionPoint(3), p), DragMode::Move(p));
    assert_eq!(drag_mode_of(Contained::ResizeLtoR(p), p), DragMode::ResizeLtoR(p));
    assert_eq!(drag_mode_of(Contained::ResizeRtoL(p), p), DragMode::ResizeRtoL(p));
    assert_eq!(drag_mode_of(Contained::ResizeTtoB(p), p), DragMode::ResizeTtoB(p));
    assert_eq!(drag_mode_of(Contained::ResizeBtoT(p), p), DragMode::ResizeBtoT(p));
    assert_eq!(drag_mode_of(Contained::ResizeTLtoBR(p), p), DragMode::ResizeTLtoBR(p));
    assert_eq!(drag_mode_of(Contained::ResizeBRtoTL(p), p), DragMode::ResizeBRtoTL(p));
    assert_eq!(drag_mode_of(Contained::ResizeTRtoBL(p), p), DragMode::ResizeTRtoBL(p));
    assert_eq!(drag_mode_of(Contained::ResizeBLtoTR(p), p), DragMode::ResizeBLtoTR(p));
    assert_eq!((EPSILON, POINT_OVER_TOLERANCE), (5000, 7000));
}

#[test]
fn zoom_accumulates_and_stays_positive() {
    let mut ui = board();
    assert_eq!(ui.transform().zoom_factor, 1000);
    ui.zoom(1100);
    assert_eq!(ui.transform().zoom_factor, 1100);
    ui.zoom(1000);
    assert_eq!(ui.transform().zoom_factor, 1100);
    ui.zoom(500);
    assert_eq!(ui.transform().zoom_factor, 600);
    ui.zoom(400);
    assert_eq!(ui.transform().zoom_factor, 600);
    ui.zoom(401);
    assert_eq!(ui.transform().zoom_factor, 1);
    ui.zoom(i32::MAX);
    ui.zoom(i32::MAX);
    assert_eq!(ui.transform().zoom_factor, i32::MAX);
}

#[test]
fn scroll_keeps_the_last_scroll() {
    let mut ui = board();
    ui.scroll(Vec2::new(5000, -3000));
    ui.scroll(Vec2::zero());
    assert_eq!(ui.transform().scroll_delta, Vec2::new(5000, -3000));
}

#[test]
fn drawing_applies_the_view_once() {
    let mut ui = board();
    place(&mut ui, px(0., 0.), px(100., 50.));
    ui.zoom(2000);
    ui.scroll(Vec2::new(10000, 0));
    ui.draw();
    assert_eq!(frame_of(&ui, 1), Some(Rect { min: px(10., 0.), max: px(210., 100.) }));
    ui.draw();
    ui.draw();
    assert_eq!(frame_of(&ui, 1), Some(Rect { min: px(10., 0.), max: px(210., 100.) }));
    place(&mut ui, px(300., 300.), px(400., 400.));
    ui.draw();
    assert_eq!(frame_of(&ui, 2), Some(Rect { min: px(300., 300.), max: px(400., 400.) }));
}

#[test]
fn remote_events_are_applied_in_order() {
    let mut ui = board();
    let batch = vec![
        WsMessages::AddFigure(AddFigure {
            rq: header(),
            rect: Rect { min: px(0., 0.), max: px(100., 50.) },
            text: String::from("hello"),
        }),
        WsMessages::MousePosition(MousePosition { rq: header(), position: px(5., 6.) }),
        WsMessages::AddFigure(AddFigure {
            rq: header(),
            rect: Rect { min: px(200., 0.), max: px(300., 100.) },
            text: String::new(),
        }),
        WsMessages::AddArrow(AddArrow { rq: header(), start_id: String::from("1"), end_id: String::from("2") }),
        WsMessages::AddArrow(AddArrow { rq: header(), start_id: String::from("x"), end_id: String::new() }),
        WsMessages::MousePosition(MousePosition { rq: header(), position: px(7., 8.) }),
    ];
    ui.apply_remote(&batch);
    assert_eq!(ui.cells().order(), &vec![1, 2, 3, 4]);
    assert_eq!(ui.remote_cursor(), Some(px(7., 8.)));
    assert_eq!(ui.cells().get(1).unwrap().shapes.len(), 2);
    assert_eq!(ui.cells().get(2).unwrap().shapes.len(), 1);
    assert_eq!(ui.cells().get(1).unwrap().connection_points().len(), 12);
    let edge = ui.cells().extract_edge(3).unwrap();
    assert_eq!(edge.get_start(), EdgeVertex::Cell(1, 0));
    assert_eq!(edge.get_end(), EdgeVertex::Cell(2, 0));
    assert_eq!(edge.points(), &vec![px(25., 0.), px(225., 0.)]);
    let loose = ui.cells().extract_edge(4).unwrap();
    assert_eq!(loose.get_start(), EdgeVertex::Pos(Pos2::zero()));
    assert_eq!(loose.get_end(), EdgeVertex::Pos(Pos2::zero()));
    assert!(ui.take_events().is_empty());
}

#[test]
fn a_remote_pointer_leaves_the_cells_alone() {
    let mut ui = board();
    place(&mut ui, px(0., 0.), px(100., 50.));
    let before = format!("{:?}", ui.cells().get(1));
    ui.apply_remote(&vec![WsMessages::MousePosition(MousePosition { rq: header(), position: px(50., 25.) })]);
    ui.apply_remote(&Vec::new());
    assert_eq!(format!("{:?}", ui.cells().get(1)), before);
    assert_eq!(ui.cells().len(), 1);
    assert_eq!(ui.remote_cursor(), Some(px(50., 25.)));
}

#[test]
fn an_edge_sprouts_only_from_under_the_pointer() {
    let mut ui = board();
    place(&mut ui, px(0., 0.), px(100., 50.));
    ui.on_hover(px(50., 25.));
    ui.on_click();
    ui.on_drag_start(px(107., 25.));
    assert!(matches!(ui.state(), GraphState::Tool(_)));
    ui.on_drag_release(px(107., 25.));
    assert_eq!(ui.cells().len(), 2);
    assert!(ui.cells().extract_connectable(2).unwrap().edges.is_empty());
    assert!(ui.cells().get(2).unwrap().connection_points().is_empty());

    assert_eq!(ui.cells().selected(), Some(1));
    ui.on_drag_start(px(106.999, 25.));
    match ui.state() {
        GraphState::Arrow(edge) => assert_eq!(edge.get_start(), EdgeVertex::Cell(1, 4)),
        _ => panic!("an edge sprouts from the connection point under the pointer"),
    }
}

#[test]
fn a_released_edge_snaps_only_from_under_the_pointer() {
    let mut ui = board();
    place(&mut ui, px(0., 0.), px(100., 50.));
    place(&mut ui, px(200., 0.), px(300., 100.));
    ui.on_hover(px(50., 25.));
    ui.on_click();
    ui.on_drag_start(px(100., 25.));
    ui.on_drag_release(px(193., 50.));
    assert_eq!(ui.cells().extract_edge(3).unwrap().get_end(), EdgeVertex::Pos(px(193., 50.)));
    assert!(ui.cells().extract_connectable(2).unwrap().edges.is_empty());
    assert_eq!(ui.cells().get(1).map(|cell| cell.frame()), Some(Some(Rect { min: px(0., 0.), max: px(100., 50.) })));
    assert_eq!(ui.cells().get(2).map(|cell| cell.frame()), Some(Some(Rect { min: px(200., 0.), max: px(300., 100.) })));
}

#[test]
fn a_click_without_a_drag_places_nothing_to_grab() {
    let mut ui = board();
    ui.on_drag_start(px(10., 10.));
    ui.on_drag_release(px(10., 10.));
    assert_eq!(ui.cells().len(), 1);
    assert!(ui.cells().get(1).unwrap().connection_points().is_empty());
    ui.on_hover(px(10., 10.));
    assert!(matches!(ui.state(), GraphState::Nothing));
}
