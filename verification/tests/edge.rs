use diadro::edge::EDGE_EPSILON;
use diadro::figure::{Color32, Contained, Figure, Stroke};
use diadro::{CellStore, EdgeVertex, MxCell, Pos2, Rect, UnMxEdge, Vec2};

fn pt(x: f32, y: f32) -> Pos2 {
    Pos2::new((x * 1000.0).round() as i32, (y * 1000.0).round() as i32)
}

fn node(rect: Rect) -> MxCell {
    let mut cell = MxCell::new(0);
    cell.shapes.push(Figure::Rect {
        rect,
        fill: Color32 { r: 0, g: 0, b: 0, a: 0 },
        stroke: Stroke { width: 1000, color: Color32 { r: 0, g: 0, b: 0, a: 255 } },
    });
    cell.recompute_connection_points();
    cell
}

#[test]
fn test_contains() {
    let mut edge = UnMxEdge::new(Some(1), Some(2));

    // For vertical line
    assert!(edge.set_points(vec![pt(1., 2.), pt(1., 5.)]));
    assert!(edge.contains(pt(1., 3.)).is_some());
    assert!(edge.contains(pt(3., 5.)).is_some());
    assert!(edge.contains(pt(0., 5.)).is_some());
    assert!(edge.contains(pt(4.1, 5.)).is_none());

    // For horizontal line
    assert!(edge.set_points(vec![pt(1., 2.), pt(10., 2.)]));
    assert!(edge.contains(pt(1., 3.)).is_some());
    assert!(edge.contains(pt(3., 5.)).is_some());
    assert!(edge.contains(pt(0., 2.)).is_some());
    assert!(edge.contains(pt(4.1, 6.)).is_none());

    // For oblique (angle != 90 or 0) line
    assert!(edge.set_points(vec![pt(1., 1.), pt(100., 100.)]));
    assert!(edge.contains(pt(1., 1.)).is_some());
    assert!(edge.contains(pt(100., 100.)).is_some());
    assert!(edge.contains(pt(53., 50.)).is_some());
    assert!(edge.contains(pt(100., 98.)).is_some());
    assert!(edge.contains(pt(104., 97.)).is_none());

    // For oblique (angle != 90 or 0) line
    assert!(edge.set_points(vec![pt(1., 1.), pt(200., 100.)]));
    assert!(edge.contains(pt(2., 1.)).is_some());
    assert!(edge.contains(pt(199., 100.)).is_some());
    assert!(edge.contains(pt(102., 50.)).is_some());
    assert!(edge.contains(pt(77., 35.)).is_none());

    assert!(edge.set_points(vec![pt(1., 1.), pt(30., 10.)]));
    assert!(edge.contains(pt(3., 1.)).is_some());
    assert!(edge.contains(pt(29., 10.)).is_some());
    assert!(edge.contains(pt(31., 10.)).is_some());
}

#[test]
fn test_multiline_contains() {
    let mut edge = UnMxEdge::new(Some(1), Some(2));

    assert!(edge.set_points(vec![pt(1., 2.), pt(1., 5.), pt(3., 30.)]));
    assert!(edge.contains(pt(1., 5.)).is_some());
    assert!(edge.contains(pt(2., 15.)).is_some());
}

#[test]
fn test_multiline_contains_cp() {
    let mut edge = UnMxEdge::new(Some(1), Some(2));

    assert!(edge.set_points(vec![pt(1., 2.), pt(1., 50.), pt(3., 90.)]));
    let idx = edge.contains(pt(1., 48.)).map(|cp| match cp {
        Contained::ConnectionPoint(idx) => idx,
        _ => 0xff,
    });

    assert_eq!(idx, Some(1));
}

#[test]
fn vertices_are_asked_before_segments() {
    let mut edge = UnMxEdge::from_vertices(EdgeVertex::Pos(pt(0., 0.)), EdgeVertex::Pos(pt(0., 0.)));
    assert!(edge.set_points(vec![pt(0., 0.), pt(10., 0.), pt(10., 2.)]));
    assert_eq!(edge.contains(pt(9., 2.)), Some(Contained::ConnectionPoint(1)));
    assert_eq!(edge.contains(pt(5., 1.)), Some(Contained::InArea));
    assert_eq!(edge.contains(pt(5., 4.)), None);
}

#[test]
fn new_edges_start_with_two_points() {
    let edge = UnMxEdge::new(Some(7), None);
    assert_eq!(edge.get_start(), EdgeVertex::Cell(7, 0));
    assert_eq!(edge.get_end(), EdgeVertex::Pos(Pos2::zero()));
    assert_eq!(edge.points().len(), 2);
    assert_eq!(edge.epsilon(), EDGE_EPSILON);
    assert_eq!(edge.zoom_factor(), 1000);
    assert_eq!(edge.scroll_delta(), Vec2::zero());
    assert_eq!(edge.stroke(), UnMxEdge::default_stroke());
    assert!(!edge.start_arrow());
    assert!(!edge.end_arrow());

    let edge = UnMxEdge::from_vertices(EdgeVertex::Cell(1, 4), EdgeVertex::Pos(pt(5., 6.)));
    assert_eq!(edge.points(), &vec![Pos2::zero(), pt(5., 6.)]);
    let edge = UnMxEdge::from_vertices(EdgeVertex::Pos(pt(5., 6.)), EdgeVertex::Cell(1, 4));
    assert_eq!(edge.points(), &vec![pt(5., 6.), Pos2::zero()]);
    let edge = UnMxEdge::from_vertices(EdgeVertex::Pos(pt(1., 2.)), EdgeVertex::Pos(pt(3., 4.)));
    assert_eq!(edge.points(), &vec![pt(1., 2.), pt(3., 4.)]);
    let edge = UnMxEdge::from_vertices(EdgeVertex::Cell(1, 4), EdgeVertex::Cell(2, 5));
    assert_eq!(edge.points(), &vec![Pos2::zero(), Pos2::zero()]);
}

#[test]
fn an_edge_keeps_its_two_ends() {
    let mut edge = UnMxEdge::from_vertices(EdgeVertex::Pos(pt(1., 2.)), EdgeVertex::Pos(pt(3., 4.)));
    assert!(!edge.set_points(vec![pt(9., 9.)]));
    assert!(!edge.set_points(Vec::new()));
    assert_eq!(edge.points(), &vec![pt(1., 2.), pt(3., 4.)]);
}

#[test]
fn setters_change_one_thing() {
    let mut edge = UnMxEdge::new(None, None);
    edge.set_start_arrow(true);
    edge.set_end_arrow(true);
    edge.set_epsilon(9);
    let pen = Stroke { width: 2000, color: Color32 { r: 1, g: 2, b: 3, a: 4 } };
    edge.set_stroke(pen);
    edge.set_drawn(2000, Vec2::new(1, 1));
    assert!(edge.start_arrow() && edge.end_arrow());
    assert_eq!(edge.epsilon(), 9);
    assert_eq!(edge.stroke(), pen);
    assert_eq!(edge.zoom_factor(), 2000);
    assert_eq!(edge.scroll_delta(), Vec2::new(1, 1));
    edge.set_drawn(0, Vec2::zero());
    assert_eq!(edge.zoom_factor(), 2000);
    assert_eq!(edge.points(), &vec![Pos2::zero(), Pos2::zero()]);
}

#[test]
fn computing_moves_the_ends_and_keeps_the_way_points() {
    let mut cells = CellStore::new();
    let a = cells.insert(node(Rect::from_two_pos(pt(0., 0.), pt(100., 50.)))).unwrap();
    let b = cells.insert(node(Rect::from_two_pos(pt(200., 0.), pt(300., 100.)))).unwrap();
    let mut edge = UnMxEdge::from_vertices(EdgeVertex::Cell(a, 4), EdgeVertex::Cell(b, 10));
    assert!(edge.set_points(vec![pt(1., 1.), pt(150., 80.), pt(160., 90.), pt(2., 2.)]));
    edge.compute_points(&cells);
    assert_eq!(edge.points(), &vec![pt(100., 25.), pt(150., 80.), pt(160., 90.), pt(200., 50.)]);
    assert_eq!(edge.get_start(), EdgeVertex::Cell(a, 4));
    assert_eq!(edge.get_end(), EdgeVertex::Cell(b, 10));
}

#[test]
fn binding_an_end_computes_the_edge() {
    let mut cells = CellStore::new();
    let a = cells.insert(node(Rect::from_two_pos(pt(0., 0.), pt(100., 50.)))).unwrap();
    let mut edge = UnMxEdge::from_vertices(EdgeVertex::Pos(pt(7., 7.)), EdgeVertex::Pos(pt(9., 9.)));
    edge.set_end(a, 1, &cells);
    assert_eq!(edge.points(), &vec![pt(7., 7.), pt(50., 0.)]);
    edge.set_start(a, 7, &cells);
    assert_eq!(edge.points(), &vec![pt(50., 50.), pt(50., 0.)]);
    edge.set_end_pos(pt(1., 1.));
    assert_eq!(edge.get_end(), EdgeVertex::Pos(pt(1., 1.)));
    assert_eq!(edge.points(), &vec![pt(50., 50.), pt(1., 1.)]);
}

#[test]
fn an_end_without_its_cell_stays_where_it_lay() {
    let mut cells = CellStore::new();
    let c = cells.insert(node(Rect::from_two_pos(pt(0., 0.), pt(100., 50.)))).unwrap();
    let mut edge = UnMxEdge::from_vertices(EdgeVertex::Pos(pt(300., 300.)), EdgeVertex::Pos(pt(9., 9.)));
    edge.set_end(c, 4, &cells);
    assert_eq!(edge.points()[1], pt(100., 25.));

    assert!(cells.remove(c).is_some());
    edge.compute_points(&cells);
    assert_eq!(edge.points(), &vec![pt(300., 300.), pt(100., 25.)]);
    assert_eq!(edge.get_end(), EdgeVertex::Pos(pt(100., 25.)));
}

#[test]
fn an_end_waits_for_a_cell_that_has_not_come_yet() {
    let cells = CellStore::new();
    let mut edge = UnMxEdge::from_vertices(EdgeVertex::Pos(pt(3., 3.)), EdgeVertex::Cell(5, 0));
    assert!(edge.set_points(vec![pt(3., 3.), pt(8., 8.)]));
    edge.compute_points(&cells);
    assert_eq!(edge.get_end(), EdgeVertex::Cell(5, 0));
    assert_eq!(edge.points(), &vec![pt(3., 3.), pt(8., 8.)]);
}

#[test]
fn an_end_on_a_missing_connection_point_stays_bound() {
    let mut cells = CellStore::new();
    let c = cells.insert(node(Rect::from_two_pos(pt(0., 0.), pt(100., 50.)))).unwrap();
    let mut edge = UnMxEdge::from_vertices(EdgeVertex::Pos(pt(3., 3.)), EdgeVertex::Cell(c, 12));
    assert!(edge.set_points(vec![pt(3., 3.), pt(8., 8.)]));
    edge.compute_points(&cells);
    assert_eq!(edge.get_end(), EdgeVertex::Cell(c, 12));
    assert_eq!(edge.points(), &vec![pt(3., 3.), pt(8., 8.)]);
}

#[test]
fn releasing_a_cell_sets_its_ends_free() {
    let mut edge = UnMxEdge::from_vertices(EdgeVertex::Cell(1, 0), EdgeVertex::Cell(2, 0));
    assert!(edge.set_points(vec![pt(3., 3.), pt(8., 8.)]));
    edge.release(2);
    assert_eq!(edge.get_start(), EdgeVertex::Cell(1, 0));
    assert_eq!(edge.get_end(), EdgeVertex::Pos(pt(8., 8.)));
    edge.release(1);
    assert_eq!(edge.get_start(), EdgeVertex::Pos(pt(3., 3.)));
}

#[test]
fn drawing_zooms_by_the_change_of_the_factor() {
    let mut edge = UnMxEdge::from_vertices(EdgeVertex::Pos(pt(10., 20.)), EdgeVertex::Pos(pt(30., 40.)));
    edge.draw_transform(2000, Vec2::zero());
    assert_eq!(edge.points(), &vec![pt(20., 40.), pt(60., 80.)]);
    assert_eq!(edge.get_start(), EdgeVertex::Pos(pt(20., 40.)));
    edge.draw_transform(2000, Vec2::zero());
    assert_eq!(edge.points(), &vec![pt(20., 40.), pt(60., 80.)]);
    edge.draw_transform(1000, Vec2::zero());
    assert_eq!(edge.points(), &vec![pt(10., 20.), pt(30., 40.)]);
    edge.draw_transform(0, Vec2::zero());
    edge.draw_transform(-5, Vec2::zero());
    assert_eq!(edge.points(), &vec![pt(10., 20.), pt(30., 40.)]);
    assert_eq!(edge.zoom_factor(), 1000);
}

#[test]
fn drawing_scrolls_only_when_the_scroll_changes() {
    let mut edge = UnMxEdge::from_vertices(EdgeVertex::Pos(pt(10., 20.)), EdgeVertex::Pos(pt(30., 40.)));
    let scroll = Vec2::new(5000, -5000);
    edge.draw_transform(1000, scroll);
    assert_eq!(edge.points(), &vec![pt(15., 15.), pt(35., 35.)]);
    edge.draw_transform(1000, scroll);
    assert_eq!(edge.points(), &vec![pt(15., 15.), pt(35., 35.)]);
    assert_eq!(edge.scroll_delta(), scroll);
    edge.draw_transform(1000, Vec2::zero());
    assert_eq!(edge.points(), &vec![pt(15., 15.), pt(35., 35.)]);
}
