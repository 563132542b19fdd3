//! The store that owns every cell of a diagram, keyed by identifier, with the
//! order in which the cells are drawn and hit-tested.
//!
//! The order is a list of its own, kept apart from the identifiers: bringing a
//! cell to the front rewrites the list and takes time in proportion to the
//! number of cells, which is small on a board.

use std::collections::{HashMap, HashSet};
use vstd::prelude::*;
use crate::cell::{CellChange, CellModel, CellType, CellTypeModel, MxCell, MxCellState, MxConnectable};
use crate::edge::{resolve_point, resolve_vertex, EdgeModel, EdgeVertex, UnMxEdge};
use crate::figure::{find_over, first_over, Contained};
use crate::errors::MxErrors;
use crate::geometry::Pos2;

verus! {

/// What a [`CellStore`] is, as a mathematical value.
pub struct StoreModel {
    /// The live cells by identifier.
    pub cells: Map<u64, CellModel>,
    /// The identifiers of the live cells, from the cell drawn first to the
    /// cell drawn last, which lies on top.
    pub order: Seq<u64>,
    /// The identifier that the next cell gets.
    pub next_id: u64,
}

/// The cell with its edge, if it is one, resolved against `store`.
pub open spec fn resolved_cell(cell: CellModel, store: StoreModel) -> CellModel {
    match cell.cell_type {
        CellTypeModel::Edge(edge) => CellModel { cell_type: CellTypeModel::Edge(edge.recomputed(store)), ..cell },
        CellTypeModel::Connectable(ids) => cell,
    }
}

impl StoreModel {
    /// The store with every edge resolved against it.
    pub open spec fn recomputed(self) -> StoreModel {
        StoreModel {
            cells: Map::new(|k: u64| self.cells.contains_key(k), |k: u64| resolved_cell(self.cells[k], self)),
            ..self
        }
    }

    /// The cells of the first `upto` entries of the order, in that order. An
    /// entry of the order without a cell is passed over.
    pub open spec fn live_cells(self, upto: int) -> Seq<CellModel>
        decreases upto,
    {
        if upto <= 0 || upto > self.order.len() {
            Seq::empty()
        } else if self.cells.contains_key(self.order[upto - 1]) {
            self.live_cells(upto - 1).push(self.cells[self.order[upto - 1]])
        } else {
            self.live_cells(upto - 1)
        }
    }

    /// The topmost cell among the first `upto` of the order that holds
    /// `point`, with how it holds it. An entry of the order without a cell is
    /// passed over.
    pub open spec fn hit_below(self, upto: int, point: Pos2, epsilon: u32) -> Option<(u64, Contained)>
        decreases upto,
    {
        if upto <= 0 || upto > self.order.len() {
            None
        } else {
            let id = self.order[upto - 1];
            match self.cells[id].hit(point, epsilon) {
                Some(hit) if self.cells.contains_key(id) => Some((id, hit)),
                _ => self.hit_below(upto - 1, point, epsilon),
            }
        }
    }

    /// The topmost cell that holds `point`, with how it holds it. Where cells
    /// overlap, the one drawn later wins.
    pub open spec fn top_hit(self, point: Pos2, epsilon: u32) -> Option<(u64, Contained)> {
        self.hit_below(self.order.len() as int, point, epsilon)
    }

    /// The topmost cell among the first `upto` of the order, `skip` left out,
    /// that has a connection point strictly nearer than `tolerance` to
    /// `point`, with the index of the first such point.
    pub open spec fn snap_below(self, upto: int, point: Pos2, tolerance: u32, skip: Option<u64>) -> Option<
        (u64, usize),
    >
        decreases upto,
    {
        if upto <= 0 || upto > self.order.len() {
            None
        } else {
            let id = self.order[upto - 1];
            match first_over(self.cells[id].connection_points, 0, point, tolerance) {
                Some(idx) if skip != Some(id) && self.cells.contains_key(id) => Some((id, idx as usize)),
                _ => self.snap_below(upto - 1, point, tolerance, skip),
            }
        }
    }

    /// The connection point that an edge dragged to `point` snaps to.
    pub open spec fn snap_target(self, point: Pos2, tolerance: u32, skip: Option<u64>) -> Option<(u64, usize)> {
        self.snap_below(self.order.len() as int, point, tolerance, skip)
    }

    /// The topmost selected cell among the first `upto` of the order.
    pub open spec fn selected_below(self, upto: int) -> Option<u64>
        decreases upto,
    {
        if upto <= 0 || upto > self.order.len() {
            None
        } else if self.cells.contains_key(self.order[upto - 1]) && self.cells[self.order[upto - 1]].state
            == MxCellState::Selected {
            Some(self.order[upto - 1])
        } else {
            self.selected_below(upto - 1)
        }
    }

    /// The topmost selected cell.
    pub open spec fn selected(self) -> Option<u64> {
        self.selected_below(self.order.len() as int)
    }

    /// The order holds each live identifier once and no other, every cell is
    /// stored under its own identifier, and every identifier in use lies
    /// below the next one to be given out.
    pub open spec fn wf(self) -> bool {
        &&& self.order.no_duplicates()
        &&& forall|id: u64| self.cells.contains_key(id) <==> self.order.contains(id)
        &&& forall|id: u64| #[trigger]
            self.cells.contains_key(id) ==> self.cells[id].id == id && id < self.next_id
    }

    /// Whether the store once held a cell with this identifier and holds it
    /// no more.
    pub open spec fn was_deleted(self, id: u64) -> bool {
        id < self.next_id && !self.cells.contains_key(id)
    }

    /// The store with `cell` added under the next identifier, on top of the
    /// others.
    pub open spec fn inserted(self, cell: CellModel) -> StoreModel {
        StoreModel {
            cells: self.cells.insert(self.next_id, CellModel { id: self.next_id, ..cell }),
            order: self.order.push(self.next_id),
            next_id: (self.next_id + 1) as u64,
        }
    }

    /// The store with the cell `id` replaced by `cell`.
    pub open spec fn with_cell(self, id: u64, cell: CellModel) -> StoreModel {
        StoreModel { cells: self.cells.insert(id, cell), ..self }
    }

    /// The store with a change applied to the cell `id`, if it holds one.
    pub open spec fn updated(self, id: u64, change: CellChange) -> StoreModel {
        if self.cells.contains_key(id) {
            self.with_cell(id, self.cells[id].changed(change))
        } else {
            self
        }
    }

    /// The store with a change applied to every cell.
    pub open spec fn updated_all(self, change: CellChange) -> StoreModel {
        StoreModel {
            cells: Map::new(|k: u64| self.cells.contains_key(k), |k: u64| self.cells[k].changed(change)),
            ..self
        }
    }

    /// The store without the cell `id`: the cell leaves the map and the order
    /// at once, and every cell that stays is told so, so that no edge stays
    /// bound to it and no node lists it.
    pub open spec fn removed(self, id: u64) -> StoreModel {
        if self.cells.contains_key(id) {
            StoreModel {
                cells: Map::new(
                    |k: u64| self.cells.contains_key(k) && k != id,
                    |k: u64| self.cells[k].changed(CellChange::Release(id)),
                ),
                order: self.order.remove(self.order.index_of(id)),
                next_id: self.next_id,
            }
        } else {
            self
        }
    }

    /// The store with the cell `id` drawn last, on top of the others.
    pub open spec fn brought_to_front(self, id: u64) -> StoreModel {
        if self.order.contains(id) {
            StoreModel { order: self.order.remove(self.order.index_of(id)).push(id), ..self }
        } else {
            self
        }
    }
}

/// The models of the cells of a map.
pub open spec fn cell_models(cells: Map<u64, MxCell>) -> Map<u64, CellModel> {
    Map::new(|id: u64| cells.contains_key(id), |id: u64| cells[id]@)
}

/// The store of the cells of a diagram.
pub struct CellStore {
    cells: HashMap<u64, MxCell>,
    order: Vec<u64>,
    next_id: u64,
}

impl View for CellStore {
    type V = StoreModel;

    closed spec fn view(&self) -> StoreModel {
        StoreModel { cells: cell_models(self.cells@), order: self.order@, next_id: self.next_id }
    }
}

/// Where `id` stands in `order`.
fn position(order: &Vec<u64>, id: u64) -> (r: Option<usize>)
    ensures
        match r {
            Some(at) => at < order.len() && order@[at as int] == id,
            None => !order@.contains(id),
        },
{
    let mut idx: usize = 0;
    while idx < order.len()
        invariant
            idx <= order.len(),
            forall|i: int| 0 <= i < idx ==> order@[i] != id,
        decreases order.len() - idx,
    {
        if order[idx] == id {
            return Some(idx);
        }
        idx += 1;
    }
    None
}

/// Whether no identifier stands twice in `order`.
fn distinct(order: &Vec<u64>) -> (r: bool)
    ensures
        r == order@.no_duplicates(),
{
    let mut seen: HashSet<u64> = HashSet::new();
    let mut idx: usize = 0;
    while idx < order.len()
        invariant
            idx <= order.len(),
            forall|i: int| 0 <= i < idx ==> seen@.contains(#[trigger] order@[i]),
            forall|k: u64| seen@.contains(k) ==> order@.subrange(0, idx as int).contains(k),
            forall|a: int, b: int| 0 <= a < b < idx ==> order@[a] != order@[b],
        decreases order.len() - idx,
    {
        let id = order[idx];
        let ghost before = seen@;
        if !seen.insert(id) {
            proof {
                let head = order@.subrange(0, idx as int);
                assert(head.contains(id));
                let i = head.index_of(id);
                assert(order@[i] == order@[idx as int]);
            }
            return false;
        }
        proof {
            let head = order@.subrange(0, idx as int);
            let next = order@.subrange(0, idx + 1);
            assert forall|k: u64| seen@.contains(k) implies next.contains(k) by {
                if k == id {
                    assert(next[idx as int] == k);
                } else {
                    assert(before.contains(k));
                    let i = head.index_of(k);
                    assert(next[i] == k);
                }
            }
            assert forall|a: int, b: int| 0 <= a < b < idx + 1 implies order@[a] != order@[b] by {
                if b == idx && order@[a] == order@[b] {
                    assert(before.contains(order@[a]));
                }
            }
        }
        idx += 1;
    }
    assert forall|a: int, b: int| 0 <= a < order.len() && 0 <= b < order.len() && a != b implies order@[a]
        != order@[b] by {
        if a < b {
            assert(order@[a] != order@[b]);
        } else {
            assert(order@[b] != order@[a]);
        }
    }
    true
}

/// In a well-formed store the map holds as many cells as the order is long.
proof fn lemma_as_many_as_ordered(store: StoreModel)
    requires
        store.wf(),
        store.cells.dom().finite(),
    ensures
        store.cells.dom().len() == store.order.len(),
{
    store.order.unique_seq_to_set();
    assert(store.cells.dom() =~= store.order.to_set());
}

/// A map that holds every identifier of an order without duplicates, and as
/// many cells as the order is long, holds no other identifier.
proof fn lemma_nothing_unordered(store: StoreModel)
    requires
        store.order.no_duplicates(),
        store.cells.dom().finite(),
        store.cells.dom().len() == store.order.len(),
        forall|i: int| 0 <= i < store.order.len() ==> store.cells.contains_key(#[trigger] store.order[i]),
    ensures
        forall|id: u64| store.cells.contains_key(id) <==> store.order.contains(id),
{
    broadcast use vstd::seq_lib::seq_to_set_is_finite;

    store.order.unique_seq_to_set();
    assert(store.order.to_set().subset_of(store.cells.dom()));
    vstd::set_lib::lemma_subset_equality(store.order.to_set(), store.cells.dom());
    assert forall|id: u64| store.cells.contains_key(id) <==> store.order.contains(id) by {
        assert(store.cells.dom().contains(id) <==> store.order.to_set().contains(id));
    }
}

/// What is left of an order without duplicates when the entry at `at` is
/// taken out.
proof fn lemma_order_remove(order: Seq<u64>, at: int)
    requires
        order.no_duplicates(),
        0 <= at < order.len(),
    ensures
        order.remove(at).no_duplicates(),
        order.index_of(order[at]) == at,
        forall|k: u64| order.remove(at).contains(k) <==> (order.contains(k) && k != order[at]),
{
    let rest = order.remove(at);
    assert forall|i: int, j: int| 0 <= i < rest.len() && 0 <= j < rest.len() && i != j implies rest[i]
        != rest[j] by {
        let oi = if i < at { i } else { i + 1 };
        let oj = if j < at { j } else { j + 1 };
        assert(rest[i] == order[oi]);
        assert(rest[j] == order[oj]);
    }
    assert forall|k: u64| rest.contains(k) <==> (order.contains(k) && k != order[at]) by {
        if rest.contains(k) {
            let i = choose|i: int| 0 <= i < rest.len() && rest[i] == k;
            let oi = if i < at { i } else { i + 1 };
            assert(order[oi] == k);
        }
        if order.contains(k) && k != order[at] {
            let oi = choose|i: int| 0 <= i < order.len() && order[i] == k;
            let i = if oi < at { oi } else { oi - 1 };
            assert(rest[i] == k);
        }
    }
}

impl CellStore {
    /// Applies a change to the cell `id`. Says whether there is such a cell.
    pub fn update(&mut self, id: u64, change: CellChange) -> (r: bool)
        requires
            old(self)@.wf(),
        ensures
            final(self)@.wf(),
            r == old(self)@.cells.contains_key(id),
            final(self)@ == old(self)@.updated(id, change),
    {
        match self.cells.remove(&id) {
            Some(cell) => {
                let mut cell = cell;
                cell.apply(change);
                self.cells.insert(id, cell);
                assert(self@.cells =~= old(self)@.updated(id, change).cells);
                true
            },
            None => {
                assert(self@.cells =~= old(self)@.cells);
                false
            },
        }
    }

    /// Applies a change to every cell.
    pub fn update_all(&mut self, change: CellChange)
        requires
            old(self)@.wf(),
        ensures
            final(self)@.wf(),
            final(self)@ == old(self)@.updated_all(change),
    {
        let mut idx: usize = 0;
        while idx < self.order.len()
            invariant
                idx <= self.order.len(),
                old(self)@.wf(),
                self.order@ == old(self).order@,
                self.next_id == old(self).next_id,
                forall|k: u64| self.cells@.contains_key(k) <==> old(self).cells@.contains_key(k),
                forall|j: int|
                    0 <= j < idx ==> self.cells@[#[trigger] old(self).order@[j]]@ == old(self).cells@[old(
                        self,
                    ).order@[j]]@.changed(change),
                forall|j: int|
                    idx <= j < self.order.len() ==> self.cells@[#[trigger] old(self).order@[j]] == old(
                        self,
                    ).cells@[old(self).order@[j]],
            decreases self.order.len() - idx,
        {
            let id = self.order[idx];
            assert(old(self)@.order.contains(id));
            match self.cells.remove(&id) {
                Some(cell) => {
                    let mut cell = cell;
                    cell.apply(change);
                    self.cells.insert(id, cell);
                },
                None => {},
            }
            idx += 1;
        }
        proof {
            assert forall|k: u64| self@.cells.contains_key(k) implies self@.cells[k] == old(self)@.cells[k].changed(
                change,
            ) by {
                assert(old(self)@.order.contains(k));
                let j = old(self)@.order.index_of(k);
                assert(old(self).order@[j] == k);
            }
            assert(self@.cells =~= old(self)@.updated_all(change).cells);
        }
    }

    /// Removes the cell `id` from the store and hands it out. The edges that
    /// were bound to it keep their ends where they lie, set free; the nodes
    /// forget it as an edge.
    pub fn remove(&mut self, id: u64) -> (r: Option<MxCell>)
        requires
            old(self)@.wf(),
        ensures
            final(self)@.wf(),
            final(self)@ == old(self)@.removed(id),
            match r {
                Some(cell) => old(self)@.cells.contains_key(id) && cell@ == old(self)@.cells[id],
                None => !old(self)@.cells.contains_key(id),
            },
    {
        match self.cells.remove(&id) {
            None => {
                assert(self@.cells =~= old(self)@.cells);
                None
            },
            Some(cell) => {
                assert(old(self)@.order.contains(id));
                match position(&self.order, id) {
                    Some(at) => {
                        proof {
                            lemma_order_remove(old(self)@.order, at as int);
                        }
                        self.order.remove(at);
                    },
                    None => {
                        proof {
                            assert(self.order@.contains(id));
                        }
                    },
                }
                let ghost middle = self@;
                assert(middle.cells =~= old(self)@.cells.remove(id));
                assert forall|k: u64| middle.cells.contains_key(k) <==> middle.order.contains(k) by {
                    assert(old(self)@.cells.contains_key(k) <==> old(self)@.order.contains(k));
                }
                assert(middle.wf());
                self.update_all(CellChange::Release(id));
                assert(self@.cells =~= old(self)@.removed(id).cells);
                Some(cell)
            },
        }
    }

    /// Draws the cell `id` last, on top of the others. Says whether there is
    /// such a cell.
    pub fn bring_to_front(&mut self, id: u64) -> (r: bool)
        requires
            old(self)@.wf(),
        ensures
            final(self)@.wf(),
            r == old(self)@.cells.contains_key(id),
            final(self)@ == old(self)@.brought_to_front(id),
    {
        assert(old(self)@.order.contains(id) <==> old(self)@.cells.contains_key(id));
        match position(&self.order, id) {
            Some(at) => {
                proof {
                    lemma_order_remove(old(self)@.order, at as int);
                }
                self.order.remove(at);
                self.order.push(id);
                proof {
                    let rest = old(self)@.order.remove(at as int);
                    assert(self@.order == rest.push(id));
                    assert forall|k: u64| self@.order.contains(k) <==> old(self)@.order.contains(k) by {
                        if rest.contains(k) {
                            let i = rest.index_of(k);
                            assert(self@.order[i] == k);
                        }
                        assert(self@.order[rest.len() as int] == id);
                    }
                }
                true
            },
            None => false,
        }
    }

    /// Resolves every edge of the store against the cells of the store.
    pub fn recompute_edges(&mut self)
        requires
            old(self)@.wf(),
        ensures
            final(self)@.wf(),
            final(self)@ == old(self)@.recomputed(),
    {
        let mut idx: usize = 0;
        while idx < self.order.len()
            invariant
                idx <= self.order.len(),
                old(self)@.wf(),
                self.order@ == old(self).order@,
                self.next_id == old(self).next_id,
                forall|k: u64| self.cells@.contains_key(k) <==> old(self).cells@.contains_key(k),
                forall|k: u64| #[trigger]
                    self.cells@.contains_key(k) ==> self.cells@[k]@.connection_points == old(
                        self,
                    ).cells@[k]@.connection_points,
                forall|j: int|
                    0 <= j < idx ==> self.cells@[#[trigger] old(self).order@[j]]@ == resolved_cell(
                        old(self).cells@[old(self).order@[j]]@,
                        old(self)@,
                    ),
                forall|j: int|
                    idx <= j < self.order.len() ==> self.cells@[#[trigger] old(self).order@[j]] == old(
                        self,
                    ).cells@[old(self).order@[j]],
            decreases self.order.len() - idx,
        {
            let id = self.order[idx];
            assert(old(self)@.order.contains(id));
            let plan = match self.cells.get(&id) {
                Some(cell) => match &cell.cell_type {
                    CellType::Edge(edge) => {
                        let points = edge.points();
                        let last: usize = points.len() - 1;
                        let start = edge.get_start();
                        let end = edge.get_end();
                        Some(
                            (
                                resolve_vertex(start, points[0], self),
                                resolve_vertex(end, points[last], self),
                                resolve_point(start, points[0], self),
                                resolve_point(end, points[last], self),
                            ),
                        )
                    },
                    CellType::Connectable(_) => None,
                },
                None => None,
            };
            if let Some((start, end, first, last)) = plan {
                match self.cells.remove(&id) {
                    Some(cell) => {
                        let mut cell = cell;
                        match &mut cell.cell_type {
                            CellType::Edge(edge) => {
                                edge.set_ends(start, end, first, last);
                            },
                            CellType::Connectable(_) => {},
                        }
                        self.cells.insert(id, cell);
                    },
                    None => {},
                }
            }
            idx += 1;
        }
        proof {
            assert forall|k: u64| self@.cells.contains_key(k) implies self@.cells[k] == resolved_cell(
                old(self)@.cells[k],
                old(self)@,
            ) by {
                assert(old(self)@.order.contains(k));
                let j = old(self)@.order.index_of(k);
                assert(old(self).order@[j] == k);
            }
            assert(self@.cells =~= old(self)@.recomputed().cells);
        }
    }

    /// The cells in drawing order, from the cell drawn first to the cell on
    /// top. An entry of the order without a cell is passed over.
    pub fn iter_in_order(&self) -> (r: Vec<&MxCell>)
        ensures
            r@.len() == self@.live_cells(self@.order.len() as int).len(),
            forall|i: int|
                0 <= i < r@.len() ==> (#[trigger] r@[i])@ == self@.live_cells(self@.order.len() as int)[i],
    {
        let mut out: Vec<&MxCell> = Vec::new();
        let mut idx: usize = 0;
        while idx < self.order.len()
            invariant
                idx <= self.order.len(),
                out@.len() == self@.live_cells(idx as int).len(),
                forall|i: int| 0 <= i < out@.len() ==> (#[trigger] out@[i])@ == self@.live_cells(idx as int)[i],
            decreases self.order.len() - idx,
        {
            let id = self.order[idx];
            match self.cells.get(&id) {
                Some(cell) => {
                    out.push(cell);
                },
                None => {},
            }
            idx += 1;
        }
        out
    }

    /// The topmost cell that holds `point`, and how it holds it.
    pub fn top_hit(&self, point: Pos2, epsilon: u32) -> (r: Option<(u64, Contained)>)
        ensures
            r == self@.top_hit(point, epsilon),
    {
        let mut idx: usize = self.order.len();
        while idx > 0
            invariant
                idx <= self.order.len(),
                self@.top_hit(point, epsilon) == self@.hit_below(idx as int, point, epsilon),
            decreases idx,
        {
            idx -= 1;
            let id = self.order[idx];
            match self.cells.get(&id) {
                Some(cell) => {
                    match cell.contains(point, epsilon) {
                        Some(hit) => {
                            return Some((id, hit));
                        },
                        None => {},
                    }
                },
                None => {},
            }
        }
        None
    }

    /// The connection point that an edge dragged to `point` snaps to: the
    /// first connection point strictly nearer than `tolerance` to `point` of
    /// the topmost cell that has one, the cell `skip` left out.
    pub fn snap_target(&self, point: Pos2, tolerance: u32, skip: Option<u64>) -> (r: Option<(u64, usize)>)
        ensures
            r == self@.snap_target(point, tolerance, skip),
    {
        let mut idx: usize = self.order.len();
        while idx > 0
            invariant
                idx <= self.order.len(),
                self@.snap_target(point, tolerance, skip) == self@.snap_below(idx as int, point, tolerance, skip),
            decreases idx,
        {
            idx -= 1;
            let id = self.order[idx];
            let skipped = match skip {
                Some(other) => other == id,
                None => false,
            };
            match self.cells.get(&id) {
                Some(cell) => {
                    match find_over(&cell.connection_points, point, tolerance) {
                        Some(at) => {
                            if !skipped {
                                return Some((id, at));
                            }
                        },
                        None => {},
                    }
                },
                None => {},
            }
        }
        None
    }

    /// The topmost selected cell.
    pub fn selected(&self) -> (r: Option<u64>)
        ensures
            r == self@.selected(),
    {
        let mut idx: usize = self.order.len();
        while idx > 0
            invariant
                idx <= self.order.len(),
                self@.selected() == self@.selected_below(idx as int),
            decreases idx,
        {
            idx -= 1;
            let id = self.order[idx];
            match self.cells.get(&id) {
                Some(cell) => {
                    if let MxCellState::Selected = cell.state {
                        return Some(id);
                    }
                },
                None => {},
            }
        }
        None
    }

    /// Whether the store is well formed. A store that was made by `new` and
    /// changed by its own methods always is; the test goes once through the
    /// order.
    pub fn is_valid(&self) -> (r: bool)
        ensures
            r == self@.wf(),
    {
        proof {
            assert(self@.cells.dom() =~= self.cells@.dom());
            if self@.wf() {
                lemma_as_many_as_ordered(self@);
            }
        }
        if self.cells.len() != self.order.len() {
            return false;
        }
        if !distinct(&self.order) {
            return false;
        }
        let mut idx: usize = 0;
        while idx < self.order.len()
            invariant
                idx <= self.order.len(),
                forall|i: int|
                    0 <= i < idx ==> self@.cells.contains_key(#[trigger] self@.order[i])
                        && self@.cells[self@.order[i]].id == self@.order[i] && self@.order[i] < self@.next_id,
            decreases self.order.len() - idx,
        {
            let id = self.order[idx];
            assert(self@.order.contains(id));
            match self.cells.get(&id) {
                Some(cell) => {
                    if cell.id != id || id >= self.next_id {
                        return false;
                    }
                },
                None => {
                    return false;
                },
            }
            idx += 1;
        }
        proof {
            lemma_nothing_unordered(self@);
            assert forall|id: u64| #[trigger] self@.cells.contains_key(id) implies self@.cells[id].id == id && id
                < self@.next_id by {
                assert(self@.cells.contains_key(id) <==> self@.order.contains(id));
                let i = self@.order.index_of(id);
                assert(self@.order[i] == id);
            }
        }
        true
    }

    /// An empty store. The first cell gets the identifier 1.
    pub fn new() -> (r: CellStore)
        ensures
            r@.wf(),
            r@ == (StoreModel { cells: Map::empty(), order: Seq::empty(), next_id: 1 }),
    {
        let r = CellStore { cells: HashMap::new(), order: Vec::new(), next_id: 1 };
        assert(r@.cells =~= Map::empty());
        assert(r@.order =~= Seq::empty());
        r
    }

    /// The number of live cells.
    pub fn len(&self) -> (r: usize)
        ensures
            r == self@.order.len(),
    {
        self.order.len()
    }

    /// The identifier that the next cell gets.
    pub fn next_id(&self) -> (r: u64)
        ensures
            r == self@.next_id,
    {
        self.next_id
    }

    /// The identifiers of the live cells in drawing order.
    pub fn order(&self) -> (r: &Vec<u64>)
        ensures
            r@ == self@.order,
    {
        &self.order
    }

    /// Whether a live cell has the identifier.
    pub fn contains(&self, id: u64) -> (r: bool)
        ensures
            r == self@.cells.contains_key(id),
    {
        self.cells.contains_key(&id)
    }

    /// The cell with the identifier.
    pub fn get(&self, id: u64) -> (r: Option<&MxCell>)
        ensures
            match r {
                Some(cell) => self@.cells.contains_key(id) && cell@ == self@.cells[id],
                None => !self@.cells.contains_key(id),
            },
    {
        self.cells.get(&id)
    }

    /// Whether the store once held a cell with this identifier and holds it
    /// no more.
    pub fn was_deleted(&self, id: u64) -> (r: bool)
        ensures
            r == self@.was_deleted(id),
    {
        id < self.next_id && !self.cells.contains_key(&id)
    }

    /// The position of the connection point `idx` of the cell `id`.
    pub fn connection_point(&self, id: u64, idx: usize) -> (r: Option<Pos2>)
        ensures
            match r {
                Some(pos) => self@.cells.contains_key(id) && idx < self@.cells[id].connection_points.len()
                    && pos == self@.cells[id].connection_points[idx as int],
                None => !(self@.cells.contains_key(id) && idx < self@.cells[id].connection_points.len()),
            },
    {
        match self.cells.get(&id) {
            Some(cell) => if idx < cell.connection_points.len() {
                Some(cell.connection_points[idx])
            } else {
                None
            },
            None => None,
        }
    }

    /// Adds a cell on top of the others and gives it the next identifier,
    /// which is returned. A store that has given out every identifier takes
    /// no further cell.
    pub fn insert(&mut self, cell: MxCell) -> (r: Option<u64>)
        requires
            old(self)@.wf(),
        ensures
            final(self)@.wf(),
            match r {
                Some(id) => id == old(self)@.next_id && id < u64::MAX && final(self)@ == old(self)@.inserted(
                    cell@,
                ),
                None => old(self)@.next_id == u64::MAX && final(self)@ == old(self)@,
            },
    {
        if self.next_id == u64::MAX {
            return None;
        }
        let id = self.next_id;
        let mut cell = cell;
        cell.id = id;
        self.cells.insert(id, cell);
        self.order.push(id);
        self.next_id = id + 1;
        proof {
            assert(self@.cells =~= old(self)@.inserted(cell@).cells);
            assert(!old(self)@.order.contains(id));
            assert forall|k: u64| self@.cells.contains_key(k) <==> self@.order.contains(k) by {
                if k != id {
                    if old(self)@.order.contains(k) {
                        let i = old(self)@.order.index_of(k);
                        assert(self@.order[i] == k);
                    }
                } else {
                    assert(self@.order[self@.order.len() - 1] == id);
                }
            }
        }
        Some(id)
    }

    /// The node with the identifier.
    pub fn extract_connectable(&self, id: u64) -> (r: Result<&MxConnectable, MxErrors>)
        ensures
            match r {
                Ok(node) => self@.cells.contains_key(id) && self@.cells[id].cell_type
                    == CellTypeModel::Connectable(node@),
                Err(MxErrors::MxCellNotFound) => !self@.cells.contains_key(id),
                Err(MxErrors::WrongMxCellType) => self@.cells.contains_key(id) && self@.cells[id].cell_type is Edge,
            },
    {
        match self.cells.get(&id) {
            Some(cell) => match &cell.cell_type {
                CellType::Connectable(node) => Ok(node),
                CellType::Edge(_) => Err(MxErrors::WrongMxCellType),
            },
            None => Err(MxErrors::MxCellNotFound),
        }
    }

    /// The edge with the identifier.
    pub fn extract_edge(&self, id: u64) -> (r: Result<&UnMxEdge, MxErrors>)
        ensures
            match r {
                Ok(edge) => self@.cells.contains_key(id) && self@.cells[id].cell_type == CellTypeModel::Edge(
                    edge@,
                ),
                Err(MxErrors::MxCellNotFound) => !self@.cells.contains_key(id),
                Err(MxErrors::WrongMxCellType) => self@.cells.contains_key(id)
                    && self@.cells[id].cell_type is Connectable,
            },
    {
        match self.cells.get(&id) {
            Some(cell) => match &cell.cell_type {
                CellType::Edge(edge) => Ok(edge),
                CellType::Connectable(_) => Err(MxErrors::WrongMxCellType),
            },
            None => Err(MxErrors::MxCellNotFound),
        }
    }
}

/// In a well-formed store no entry of the order is passed over: the cells in
/// drawing order are as many as the order is long, each under its entry.
pub proof fn lemma_live_cells(store: StoreModel, upto: int)
    requires
        store.wf(),
        0 <= upto <= store.order.len(),
    ensures
        store.live_cells(upto).len() == upto,
        forall|i: int| 0 <= i < upto ==> store.live_cells(upto)[i] == store.cells[store.order[i]],
    decreases upto,
{
    if upto > 0 {
        lemma_live_cells(store, upto - 1);
        assert(store.order.contains(store.order[upto - 1]));
    }
}

/// The selected cell of a store is one of its cells.
pub proof fn lemma_selected_lives(store: StoreModel, upto: int)
    ensures
        store.selected_below(upto) matches Some(id) ==> store.cells.contains_key(id),
    decreases upto,
{
    if 0 < upto <= store.order.len() {
        lemma_selected_lives(store, upto - 1);
    }
}

/// Once a cell is removed, no edge of the store is bound to it and no node
/// lists it.
pub proof fn lemma_removed_is_forgotten(store: StoreModel, id: u64)
    requires
        store.wf(),
    ensures
        store.removed(id).wf(),
        !store.removed(id).cells.contains_key(id),
        !store.removed(id).order.contains(id),
        store.cells.contains_key(id) ==> forall|k: u64| #[trigger]
            store.removed(id).cells.contains_key(k) ==> match store.removed(id).cells[k].cell_type {
                CellTypeModel::Edge(edge) => {
                    &&& !(edge.start matches EdgeVertex::Cell(cell, idx) && cell == id)
                    &&& !(edge.end matches EdgeVertex::Cell(cell, idx) && cell == id)
                },
                CellTypeModel::Connectable(ids) => !ids.contains(id),
            },
{
    if store.cells.contains_key(id) {
        assert(store.order.contains(id));
        let at = store.order.index_of(id);
        lemma_order_remove(store.order, at);
        let gone = store.removed(id);
        assert forall|k: u64| gone.cells.contains_key(k) <==> gone.order.contains(k) by {
            assert(store.cells.contains_key(k) <==> store.order.contains(k));
        }
        assert forall|k: u64| #[trigger] gone.cells.contains_key(k) implies match gone.cells[k].cell_type {
            CellTypeModel::Edge(edge) => {
                &&& !(edge.start matches EdgeVertex::Cell(cell, idx) && cell == id)
                &&& !(edge.end matches EdgeVertex::Cell(cell, idx) && cell == id)
            },
            CellTypeModel::Connectable(ids) => !ids.contains(id),
        } by {
            match store.cells[k].cell_type {
                CellTypeModel::Edge(edge) => {},
                CellTypeModel::Connectable(ids) => {
                    crate::cell::lemma_without_forgets(ids, id);
                },
            }
        }
    } else {
        assert(store.order.contains(id) <==> store.cells.contains_key(id));
    }
}

} // verus!
