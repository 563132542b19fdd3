use diadro::figure::{Color32, Contained, Figure, Stroke};
use diadro::{CellChange, CellStore, CellType, EdgeVertex, MxCell, MxCellState, MxErrors, Pos2, Rect, UnMxEdge};

fn xy(x: f32, y: f32) -> Pos2 {
    Pos2::new((x * 1000.0).round() as i32, (y * 1000.0).round() as i32)
}

fn boxed(rect: Rect) -> MxCell {
    let mut cell = MxCell::new(0);
    cell.shapes.push(Figure::Rect {
        rect,
        fill: Color32 { r: 0, g: 0, b: 0, a: 0 },
        stroke: Stroke { width: 1000, color: Color32 { r: 0, g: 0, b: 0, a: 255 } },
    });
    cell.recompute_connection_points();
    cell
}

fn ids(store: &CellStore) -> Vec<u64> {
    store.iter_in_order().iter().map(|cell| cell.id).collect()
}

#[test]
fn cells_get_fresh_identifiers_in_order() {
    let mut store = CellStore::new();
    assert_eq!(store.len(), 0);
    assert_eq!(store.next_id(), 1);
    let a = store.insert(MxCell::new(77)).unwrap();
    let b = store.insert(MxCell::new(77)).unwrap();
    assert_eq!((a, b), (1, 2));
    assert_eq!(store.get(a).unwrap().id, a);
    assert_eq!(store.order(), &vec![1, 2]);
    assert_eq!(ids(&store), vec![1, 2]);
    assert!(store.contains(2));
    assert!(!store.contains(77));
    assert!(store.get(77).is_none());
}

#[test]
fn removed_identifiers_are_not_given_out_again() {
    let mut store = CellStore::new();
    let a = store.insert(MxCell::new(0)).unwrap();
    assert!(!store.was_deleted(a));
    assert_eq!(store.remove(a).map(|cell| cell.id), Some(a));
    assert!(store.remove(a).is_none());
    assert!(store.was_deleted(a));
    assert!(!store.was_deleted(2));
    assert_eq!(store.len(), 0);
    assert_eq!(store.insert(MxCell::new(0)), Some(2));
}

#[test]
fn removal_takes_the_cell_out_of_map_and_order() {
    let mut store = CellStore::new();
    for _ in 0..4 {
        store.insert(MxCell::new(0));
    }
    assert!(store.remove(2).is_some());
    assert_eq!(store.order(), &vec![1, 3, 4]);
    assert_eq!(ids(&store), vec![1, 3, 4]);
    assert!(store.get(2).is_none());
    assert_eq!(store.len(), 3);
}

#[test]
fn bring_to_front_moves_one_cell_to_the_top() {
    let mut store = CellStore::new();
    for _ in 0..4 {
        store.insert(MxCell::new(0));
    }
    assert!(store.bring_to_front(2));
    assert_eq!(store.order(), &vec![1, 3, 4, 2]);
    assert!(store.bring_to_front(2));
    assert_eq!(store.order(), &vec![1, 3, 4, 2]);
    assert!(!store.bring_to_front(9));
    assert_eq!(store.order(), &vec![1, 3, 4, 2]);
}

#[test]
fn extraction_by_role() {
    let mut store = CellStore::new();
    let node = store.insert(MxCell::new(0)).unwrap();
    let edge = store.insert(MxCell::new_edge(0)).unwrap();
    assert!(store.extract_connectable(node).is_ok());
    assert!(store.extract_edge(edge).is_ok());
    assert_eq!(store.extract_connectable(edge).err(), Some(MxErrors::WrongMxCellType));
    assert_eq!(store.extract_edge(node).err(), Some(MxErrors::WrongMxCellType));
    assert_eq!(store.extract_connectable(9).err(), Some(MxErrors::MxCellNotFound));
    assert_eq!(store.extract_edge(9).err(), Some(MxErrors::MxCellNotFound));
    assert_eq!(MxErrors::WrongMxCellType.message(), "Wrong cell type");
    assert_eq!(MxErrors::MxCellNotFound.message(), "Cell not found");
}

#[test]
fn connection_points_by_identifier() {
    let mut store = CellStore::new();
    let node = store.insert(boxed(Rect::from_two_pos(xy(0., 0.), xy(100., 50.)))).unwrap();
    assert_eq!(store.connection_point(node, 4), Some(xy(100., 25.)));
    assert_eq!(store.connection_point(node, 12), None);
    assert_eq!(store.connection_point(9, 0), None);
}

#[test]
fn removing_a_node_sets_its_edges_free() {
    let mut store = CellStore::new();
    let a = store.insert(boxed(Rect::from_two_pos(xy(0., 0.), xy(100., 50.)))).unwrap();
    let b = store.insert(boxed(Rect::from_two_pos(xy(200., 0.), xy(300., 100.)))).unwrap();
    let mut edge = UnMxEdge::from_vertices(EdgeVertex::Cell(a, 4), EdgeVertex::Cell(b, 10));
    edge.compute_points(&store);
    let e = store.insert(MxCell::with_edge(0, edge)).unwrap();
    assert!(store.update(a, CellChange::Attach(e)));
    assert!(store.update(b, CellChange::Attach(e)));

    assert!(store.remove(b).is_some());
    let edge = store.extract_edge(e).unwrap();
    assert_eq!(edge.get_start(), EdgeVertex::Cell(a, 4));
    assert_eq!(edge.get_end(), EdgeVertex::Pos(xy(200., 50.)));
    assert_eq!(edge.points(), &vec![xy(100., 25.), xy(200., 50.)]);

    store.recompute_edges();
    let edge = store.extract_edge(e).unwrap();
    assert_eq!(edge.points(), &vec![xy(100., 25.), xy(200., 50.)]);

    assert!(store.remove(e).is_some());
    assert!(store.extract_connectable(a).unwrap().edges.is_empty());
}

#[test]
fn edges_follow_the_cells_they_are_bound_to() {
    let mut store = CellStore::new();
    let a = store.insert(boxed(Rect::from_two_pos(xy(0., 0.), xy(100., 50.)))).unwrap();
    let edge = UnMxEdge::from_vertices(EdgeVertex::Cell(a, 4), EdgeVertex::Pos(xy(500., 500.)));
    let e = store.insert(MxCell::with_edge(0, edge)).unwrap();
    store.recompute_edges();
    assert_eq!(store.extract_edge(e).unwrap().points(), &vec![xy(100., 25.), xy(500., 500.)]);
    assert!(store.update(a, CellChange::Translate(diadro::Vec2::new(1000, 1000))));
    store.recompute_edges();
    assert_eq!(store.extract_edge(e).unwrap().points(), &vec![xy(101., 26.), xy(500., 500.)]);
    assert!(!store.update(99, CellChange::Translate(diadro::Vec2::new(1000, 1000))));
}

#[test]
fn changes_reach_every_cell() {
    let mut store = CellStore::new();
    for _ in 0..3 {
        store.insert(MxCell::new(0));
    }
    store.update(1, CellChange::SetState(MxCellState::Selected));
    store.update(2, CellChange::SetState(MxCellState::Hovered));
    assert_eq!(store.selected(), Some(1));
    store.update(3, CellChange::SetState(MxCellState::Selected));
    assert_eq!(store.selected(), Some(3));
    store.update_all(CellChange::Clear(MxCellState::Selected));
    assert_eq!(store.selected(), None);
    assert_eq!(store.get(2).unwrap().state(), MxCellState::Hovered);
    assert_eq!(store.get(1).unwrap().state(), MxCellState::Free);
}

#[test]
fn the_cell_on_top_is_hit_first() {
    let mut store = CellStore::new();
    let a = store.insert(boxed(Rect::from_two_pos(xy(0., 0.), xy(100., 100.)))).unwrap();
    let b = store.insert(boxed(Rect::from_two_pos(xy(50., 50.), xy(150., 150.)))).unwrap();
    assert_eq!(store.top_hit(xy(75., 75.), 5000), Some((b, Contained::InArea)));
    assert_eq!(store.top_hit(xy(25., 25.), 5000), Some((a, Contained::InArea)));
    assert_eq!(store.top_hit(xy(200., 25.), 5000), None);
    store.bring_to_front(a);
    assert_eq!(store.top_hit(xy(75., 75.), 5000), Some((a, Contained::InArea)));
}

#[test]
fn snapping_picks_the_top_cell_and_its_first_point() {
    let mut store = CellStore::new();
    let a = store.insert(boxed(Rect::from_two_pos(xy(0., 0.), xy(100., 50.)))).unwrap();
    let b = store.insert(boxed(Rect::from_two_pos(xy(100., 0.), xy(200., 50.)))).unwrap();
    assert_eq!(store.snap_target(xy(100., 25.), 7000, None), Some((b, 10)));
    assert_eq!(store.snap_target(xy(100., 25.), 7000, Some(b)), Some((a, 4)));
    assert_eq!(store.snap_target(xy(100., 25.), 7000, Some(a)), Some((b, 10)));
    assert_eq!(store.snap_target(xy(500., 25.), 7000, None), None);
    assert!(matches!(store.get(a).unwrap().cell_type, CellType::Connectable(_)));
}

#[test]
fn a_store_stays_well_formed() {
    let mut store = CellStore::new();
    assert!(store.is_valid());
    for _ in 0..5 {
        store.insert(MxCell::new(0));
    }
    store.remove(3);
    store.bring_to_front(1);
    store.update_all(CellChange::Clear(MxCellState::Hovered));
    store.recompute_edges();
    assert!(store.is_valid());
    assert_eq!(store.order(), &vec![2, 4, 5, 1]);
}

#[test]
fn snapping_is_strictly_under_the_tolerance() {
    let mut store = CellStore::new();
    let a = store.insert(boxed(Rect::from_two_pos(xy(0., 0.), xy(100., 50.)))).unwrap();
    assert_eq!(store.snap_target(xy(106.999, 25.), 7000, None), Some((a, 4)));
    assert_eq!(store.snap_target(xy(107., 25.), 7000, None), None);
    assert_eq!(store.snap_target(xy(100., 25.), 0, None), None);
}

#[test]
fn a_store_stays_well_formed_through_many_removals() {
    let mut store = CellStore::new();
    for _ in 0..200 {
        store.insert(MxCell::new(0));
    }
    for id in (1..=200u64).step_by(3) {
        store.remove(id);
    }
    assert!(store.is_valid());
    assert_eq!(store.len(), 133);
}
