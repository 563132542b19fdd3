//! Edges: two ends, each bound to a connection point of a cell or free, and
//! the polyline between them.

use vstd::prelude::*;
use crate::algo::{belongs_to_path, PointAlgoritm};
use crate::figure::{find_within, first_within, Color32, Contained, Stroke};
use crate::geometry::{lemma_rescale_same, Pos2, Vec2, UNIT};
use crate::store::{CellStore, StoreModel};

verus! {

/// The tolerance an edge is hit-tested with unless told otherwise: three
/// units.
pub const EDGE_EPSILON: u32 = 3000;

/// One end of an edge.
#[derive(Clone, Copy, Debug, PartialEq, Eq, Structural)]
pub enum EdgeVertex {
    /// Bound to the connection point with the given index of the cell with
    /// the given identifier. The cell is looked up each time the edge is
    /// computed; the edge does not own it.
    Cell(u64, usize),
    /// Free, at the given position.
    Pos(Pos2),
}

/// What an [`UnMxEdge`] is, as a mathematical value.
pub struct EdgeModel {
    pub start: EdgeVertex,
    pub end: EdgeVertex,
    pub points: Seq<Pos2>,
    pub epsilon: u32,
    pub zoom_factor: i32,
    pub scroll_delta: Vec2,
    pub stroke: Stroke,
    pub arrow_start: bool,
    pub arrow_end: bool,
}

/// Where an end of an edge lies: a free end at its own position; a bound end
/// at the connection point it names, and at `last`, where it lay before, while
/// the store holds no such cell or the cell no such connection point.
pub open spec fn resolved_point(vertex: EdgeVertex, last: Pos2, store: StoreModel) -> Pos2 {
    match vertex {
        EdgeVertex::Cell(id, idx) => if store.cells.contains_key(id) && idx
            < store.cells[id].connection_points.len() {
            store.cells[id].connection_points[idx as int]
        } else {
            last
        },
        EdgeVertex::Pos(pos) => pos,
    }
}

/// What an end of an edge becomes when the edge is computed: an end bound to a
/// cell that the store has deleted is set free at `last`, where it lay before;
/// any other end stays as it is.
pub open spec fn resolved_vertex(vertex: EdgeVertex, last: Pos2, store: StoreModel) -> EdgeVertex {
    match vertex {
        EdgeVertex::Cell(id, idx) => if store.was_deleted(id) {
            EdgeVertex::Pos(last)
        } else {
            vertex
        },
        EdgeVertex::Pos(pos) => vertex,
    }
}

/// What an end of an edge becomes when the cell `id` leaves the diagram: an
/// end bound to that cell is set free at `last`, where it lay before.
pub open spec fn released_vertex(vertex: EdgeVertex, id: u64, last: Pos2) -> EdgeVertex {
    match vertex {
        EdgeVertex::Cell(cell, idx) => if cell == id {
            EdgeVertex::Pos(last)
        } else {
            vertex
        },
        EdgeVertex::Pos(pos) => vertex,
    }
}

/// A free end drawn anew after a change of view; a bound end is left alone.
pub open spec fn redrawn_vertex(
    vertex: EdgeVertex,
    zoom_factor: i32,
    previous: i32,
    scrolled: bool,
    scroll_delta: Vec2,
) -> EdgeVertex {
    match vertex {
        EdgeVertex::Cell(id, idx) => vertex,
        EdgeVertex::Pos(pos) => EdgeVertex::Pos(pos.redrawn(zoom_factor, previous, scrolled, scroll_delta)),
    }
}

/// The points of `points`, each drawn anew after a change of view.
pub open spec fn redrawn_points(
    points: Seq<Pos2>,
    zoom_factor: i32,
    previous: i32,
    scrolled: bool,
    scroll_delta: Vec2,
) -> Seq<Pos2> {
    Seq::new(points.len(), |i: int| points[i].redrawn(zoom_factor, previous, scrolled, scroll_delta))
}

/// The start of a polyline for a newly made end: a free end at its position, a
/// bound end at the origin until the edge is computed.
pub open spec fn initial_point(vertex: EdgeVertex) -> Pos2 {
    match vertex {
        EdgeVertex::Cell(id, idx) => Pos2 { x: 0, y: 0 },
        EdgeVertex::Pos(pos) => pos,
    }
}

impl EdgeModel {
    /// An edge always has its two end points, and a positive zoom factor.
    pub open spec fn wf(self) -> bool {
        self.points.len() >= 2 && self.zoom_factor > 0
    }

    /// The edge between two ends as it is first made.
    pub open spec fn between(start: EdgeVertex, end: EdgeVertex) -> EdgeModel {
        EdgeModel {
            start,
            end,
            points: seq![initial_point(start), initial_point(end)],
            epsilon: EDGE_EPSILON,
            zoom_factor: UNIT,
            scroll_delta: Vec2 { x: 0, y: 0 },
            stroke: Stroke { width: UNIT, color: Color32 { r: 255, g: 255, b: 0, a: 255 } },
            arrow_start: false,
            arrow_end: false,
        }
    }

    /// How `point` lies on the edge: on the first vertex of the polyline
    /// within the edge's tolerance of it, if there is one; else on the line,
    /// if it belongs to one of the segments; else not at all.
    pub open spec fn hit(self, point: Pos2) -> Option<Contained> {
        match first_within(self.points, 0, point, self.epsilon) {
            Some(idx) => Some(Contained::ConnectionPoint(idx as usize)),
            None => if belongs_to_path(point, self.points, self.epsilon) {
                Some(Contained::InArea)
            } else {
                None
            },
        }
    }

    /// The edge with both ends resolved against `store`: the first and the
    /// last point of the polyline move to where the ends lie, the points
    /// between them stay, and an end whose cell was deleted is set free.
    pub open spec fn recomputed(self, store: StoreModel) -> EdgeModel {
        let last = self.points.len() - 1;
        EdgeModel {
            start: resolved_vertex(self.start, self.points[0], store),
            end: resolved_vertex(self.end, self.points[last], store),
            points: self.points.update(0, resolved_point(self.start, self.points[0], store)).update(
                last,
                resolved_point(self.end, self.points[last], store),
            ),
            ..self
        }
    }

    /// The edge once the cell `id` has left the diagram: the ends bound to it
    /// are set free where they lie.
    pub open spec fn released(self, id: u64) -> EdgeModel {
        EdgeModel {
            start: released_vertex(self.start, id, self.points[0]),
            end: released_vertex(self.end, id, self.points[self.points.len() - 1]),
            ..self
        }
    }

    /// The edge with the zoom factor and the scroll noted that its
    /// coordinates are drawn for.
    pub open spec fn drawn_for(self, zoom_factor: i32, scroll_delta: Vec2) -> EdgeModel {
        EdgeModel {
            zoom_factor: if zoom_factor > 0 {
                zoom_factor
            } else {
                self.zoom_factor
            },
            scroll_delta,
            ..self
        }
    }

    /// The edge with its ends and the two end points of its polyline set.
    pub open spec fn with_ends(self, start: EdgeVertex, end: EdgeVertex, first: Pos2, last: Pos2) -> EdgeModel {
        EdgeModel {
            start,
            end,
            points: self.points.update(0, first).update(self.points.len() - 1, last),
            ..self
        }
    }

    /// The edge drawn anew for the view's zoom factor and scroll. The zoom is
    /// applied relative to the factor the edge was last drawn with, and only
    /// where the new factor is positive; the scroll is applied only where it
    /// differs from the one the edge was last drawn with. Free ends move with
    /// the polyline.
    pub open spec fn transformed(self, zoom_factor: i32, scroll_delta: Vec2) -> EdgeModel {
        let scrolled = scroll_delta != self.scroll_delta;
        EdgeModel {
            start: redrawn_vertex(self.start, zoom_factor, self.zoom_factor, scrolled, scroll_delta),
            end: redrawn_vertex(self.end, zoom_factor, self.zoom_factor, scrolled, scroll_delta),
            points: redrawn_points(self.points, zoom_factor, self.zoom_factor, scrolled, scroll_delta),
            zoom_factor: if zoom_factor > 0 {
                zoom_factor
            } else {
                self.zoom_factor
            },
            scroll_delta,
            ..self
        }
    }
}

/// An edge between two ends, with the polyline that joins them.
#[derive(Debug)]
pub struct UnMxEdge {
    start: EdgeVertex,
    end: EdgeVertex,
    /// Line points, the two ends included.
    points: Vec<Pos2>,
    /// Tolerance of the hit test.
    epsilon: u32,
    zoom_factor: i32,
    scroll_delta: Vec2,
    stroke: Stroke,
    arrow_start: bool,
    arrow_end: bool,
}

impl View for UnMxEdge {
    type V = EdgeModel;

    closed spec fn view(&self) -> EdgeModel {
        EdgeModel {
            start: self.start,
            end: self.end,
            points: self.points@,
            epsilon: self.epsilon,
            zoom_factor: self.zoom_factor,
            scroll_delta: self.scroll_delta,
            stroke: self.stroke,
            arrow_start: self.arrow_start,
            arrow_end: self.arrow_end,
        }
    }
}

pub(crate) fn resolve_point(vertex: EdgeVertex, last: Pos2, cells: &CellStore) -> (r: Pos2)
    ensures
        r == resolved_point(vertex, last, cells@),
{
    match vertex {
        EdgeVertex::Cell(id, idx) => match cells.connection_point(id, idx) {
            Some(pos) => pos,
            None => last,
        },
        EdgeVertex::Pos(pos) => pos,
    }
}

pub(crate) fn resolve_vertex(vertex: EdgeVertex, last: Pos2, cells: &CellStore) -> (r: EdgeVertex)
    ensures
        r == resolved_vertex(vertex, last, cells@),
{
    match vertex {
        EdgeVertex::Cell(id, idx) => if cells.was_deleted(id) {
            EdgeVertex::Pos(last)
        } else {
            vertex
        },
        EdgeVertex::Pos(pos) => vertex,
    }
}

fn release_vertex(vertex: EdgeVertex, id: u64, last: Pos2) -> (r: EdgeVertex)
    ensures
        r == released_vertex(vertex, id, last),
{
    match vertex {
        EdgeVertex::Cell(cell, idx) => if cell == id {
            EdgeVertex::Pos(last)
        } else {
            vertex
        },
        EdgeVertex::Pos(pos) => vertex,
    }
}

fn redraw_vertex(vertex: EdgeVertex, zoom_factor: i32, previous: i32, scrolled: bool, scroll_delta: Vec2) -> (r:
    EdgeVertex)
    ensures
        r == redrawn_vertex(vertex, zoom_factor, previous, scrolled, scroll_delta),
{
    match vertex {
        EdgeVertex::Cell(id, idx) => vertex,
        EdgeVertex::Pos(pos) => EdgeVertex::Pos(pos.redraw(zoom_factor, previous, scrolled, scroll_delta)),
    }
}

/// The points of `points`, each drawn anew after a change of view.
pub fn redraw_points(points: &Vec<Pos2>, zoom_factor: i32, previous: i32, scrolled: bool, scroll_delta: Vec2) -> (r:
    Vec<Pos2>)
    ensures
        r@ == redrawn_points(points@, zoom_factor, previous, scrolled, scroll_delta),
{
    let mut drawn: Vec<Pos2> = Vec::new();
    let mut idx: usize = 0;
    while idx < points.len()
        invariant
            idx <= points.len(),
            drawn.len() == idx,
            forall|i: int|
                0 <= i < idx ==> drawn@[i] == points@[i].redrawn(zoom_factor, previous, scrolled, scroll_delta),
        decreases points.len() - idx,
    {
        drawn.push(points[idx].redraw(zoom_factor, previous, scrolled, scroll_delta));
        idx += 1;
    }
    assert(drawn@ =~= redrawn_points(points@, zoom_factor, previous, scrolled, scroll_delta));
    drawn
}

/// The points of `points` with the point at `at` replaced by `pos`.
fn with_point(points: &Vec<Pos2>, at: usize, pos: Pos2) -> (r: Vec<Pos2>)
    requires
        at < points.len(),
    ensures
        r@ == points@.update(at as int, pos),
{
    let mut out: Vec<Pos2> = Vec::new();
    let mut idx: usize = 0;
    while idx < points.len()
        invariant
            idx <= points.len(),
            at < points.len(),
            out.len() == idx,
            forall|i: int| 0 <= i < idx ==> out@[i] == points@.update(at as int, pos)[i],
        decreases points.len() - idx,
    {
        if idx == at {
            out.push(pos);
        } else {
            out.push(points[idx]);
        }
        idx += 1;
    }
    assert(out@ =~= points@.update(at as int, pos));
    out
}

fn first_point(vertex: EdgeVertex) -> (r: Pos2)
    ensures
        r == initial_point(vertex),
{
    match vertex {
        EdgeVertex::Cell(id, idx) => Pos2 { x: 0, y: 0 },
        EdgeVertex::Pos(pos) => pos,
    }
}

impl UnMxEdge {
    #[verifier::type_invariant]
    spec fn inv(self) -> bool {
        self.points.len() >= 2 && self.zoom_factor > 0
    }

    /// The pen that a new edge is drawn with: yellow, one unit wide.
    pub fn default_stroke() -> (r: Stroke)
        ensures
            r == (Stroke { width: UNIT, color: Color32 { r: 255, g: 255, b: 0, a: 255 } }),
    {
        Stroke { width: UNIT, color: Color32 { r: 255, g: 255, b: 0, a: 255 } }
    }

    /// Creates a new edge between two cells, bound to the first connection
    /// point of each. An end without a cell is free at the origin.
    pub fn new(start: Option<u64>, end: Option<u64>) -> (r: UnMxEdge)
        ensures
            r@ == EdgeModel::between(
                match start {
                    Some(id) => EdgeVertex::Cell(id, 0),
                    None => EdgeVertex::Pos(Pos2 { x: 0, y: 0 }),
                },
                match end {
                    Some(id) => EdgeVertex::Cell(id, 0),
                    None => EdgeVertex::Pos(Pos2 { x: 0, y: 0 }),
                },
            ),
            r@.wf(),
    {
        let start_vertex = match start {
            Some(id) => EdgeVertex::Cell(id, 0),
            None => EdgeVertex::Pos(Pos2 { x: 0, y: 0 }),
        };
        let end_vertex = match end {
            Some(id) => EdgeVertex::Cell(id, 0),
            None => EdgeVertex::Pos(Pos2 { x: 0, y: 0 }),
        };
        UnMxEdge::from_vertices(start_vertex, end_vertex)
    }

    /// Creates a new edge between two ends. Its polyline has two points: a
    /// free end lies at its position, a bound end at the origin until the
    /// edge is computed.
    pub fn from_vertices(start: EdgeVertex, end: EdgeVertex) -> (r: UnMxEdge)
        ensures
            r@ == EdgeModel::between(start, end),
            r@.wf(),
    {
        let mut points: Vec<Pos2> = Vec::new();
        points.push(first_point(start));
        points.push(first_point(end));
        assert(points@ =~= seq![initial_point(start), initial_point(end)]);
        UnMxEdge {
            start,
            end,
            points,
            epsilon: EDGE_EPSILON,
            zoom_factor: UNIT,
            scroll_delta: Vec2 { x: 0, y: 0 },
            stroke: UnMxEdge::default_stroke(),
            arrow_start: false,
            arrow_end: false,
        }
    }

    /// The start of the edge.
    pub fn get_start(&self) -> (r: EdgeVertex)
        ensures
            r == self@.start,
            self@.wf(),
    {
        proof {
            use_type_invariant(self);
        }
        self.start
    }

    /// The end of the edge.
    pub fn get_end(&self) -> (r: EdgeVertex)
        ensures
            r == self@.end,
            self@.wf(),
    {
        proof {
            use_type_invariant(self);
        }
        self.end
    }

    /// The polyline of the edge, from its start to its end.
    pub fn points(&self) -> (r: &Vec<Pos2>)
        ensures
            r@ == self@.points,
            self@.wf(),
    {
        proof {
            use_type_invariant(self);
        }
        &self.points
    }

    /// The tolerance of the hit test.
    pub fn epsilon(&self) -> (r: u32)
        ensures
            r == self@.epsilon,
    {
        self.epsilon
    }

    pub fn set_epsilon(&mut self, epsilon: u32)
        ensures
            final(self)@ == (EdgeModel { epsilon, ..old(self)@ }),
    {
        proof {
            use_type_invariant(&*self);
        }
        self.epsilon = epsilon;
    }

    /// The zoom factor the edge was last drawn with.
    pub fn zoom_factor(&self) -> (r: i32)
        ensures
            r == self@.zoom_factor,
            r > 0,
    {
        proof {
            use_type_invariant(self);
        }
        self.zoom_factor
    }

    /// The scroll the edge was last drawn with.
    pub fn scroll_delta(&self) -> (r: Vec2)
        ensures
            r == self@.scroll_delta,
    {
        self.scroll_delta
    }

    pub fn stroke(&self) -> (r: Stroke)
        ensures
            r == self@.stroke,
    {
        self.stroke
    }

    pub fn set_stroke(&mut self, stroke: Stroke)
        ensures
            final(self)@ == (EdgeModel { stroke, ..old(self)@ }),
    {
        proof {
            use_type_invariant(&*self);
        }
        self.stroke = stroke;
    }

    /// Whether an arrowhead is drawn at the start.
    pub fn start_arrow(&self) -> (r: bool)
        ensures
            r == self@.arrow_start,
    {
        self.arrow_start
    }

    /// Whether an arrowhead is drawn at the end.
    pub fn end_arrow(&self) -> (r: bool)
        ensures
            r == self@.arrow_end,
    {
        self.arrow_end
    }

    pub fn set_start_arrow(&mut self, flag: bool)
        ensures
            final(self)@ == (EdgeModel { arrow_start: flag, ..old(self)@ }),
    {
        proof {
            use_type_invariant(&*self);
        }
        self.arrow_start = flag;
    }

    pub fn set_end_arrow(&mut self, flag: bool)
        ensures
            final(self)@ == (EdgeModel { arrow_end: flag, ..old(self)@ }),
    {
        proof {
            use_type_invariant(&*self);
        }
        self.arrow_end = flag;
    }

    /// Replaces the polyline, way points included. An edge keeps at least its
    /// two end points: a shorter list is refused and the edge left as it is.
    pub fn set_points(&mut self, points: Vec<Pos2>) -> (r: bool)
        ensures
            r == (points@.len() >= 2),
            r ==> final(self)@ == (EdgeModel { points: points@, ..old(self)@ }),
            !r ==> final(self)@ == old(self)@,
    {
        if points.len() >= 2 {
            proof {
                use_type_invariant(&*self);
            }
            self.points = points;
            true
        } else {
            false
        }
    }

    /// Binds the start of the edge to a connection point of a cell and
    /// computes the edge.
    pub fn set_start(&mut self, cell_id: u64, point: usize, cells: &CellStore)
        ensures
            final(self)@ == (EdgeModel { start: EdgeVertex::Cell(cell_id, point), ..old(self)@ }).recomputed(
                cells@,
            ),
    {
        proof {
            use_type_invariant(&*self);
        }
        self.start = EdgeVertex::Cell(cell_id, point);
        self.compute_points(cells);
    }

    /// Binds the end of the edge to a connection point of a cell and computes
    /// the edge.
    pub fn set_end(&mut self, cell_id: u64, point: usize, cells: &CellStore)
        ensures
            final(self)@ == (EdgeModel { end: EdgeVertex::Cell(cell_id, point), ..old(self)@ }).recomputed(
                cells@,
            ),
    {
        proof {
            use_type_invariant(&*self);
        }
        self.end = EdgeVertex::Cell(cell_id, point);
        self.compute_points(cells);
    }

    /// Sets the end of the edge free at `pos` and moves the last point of the
    /// polyline there.
    pub fn set_end_pos(&mut self, pos: Pos2)
        ensures
            final(self)@ == (EdgeModel {
                end: EdgeVertex::Pos(pos),
                points: old(self)@.points.update(old(self)@.points.len() - 1, pos),
                ..old(self)@
            }),
    {
        proof {
            use_type_invariant(&*self);
        }
        let last: usize = self.points.len() - 1;
        let points = with_point(&self.points, last, pos);
        self.end = EdgeVertex::Pos(pos);
        self.points = points;
    }

    /// Notes the zoom factor and the scroll that the coordinates of the edge
    /// are drawn for, without moving anything. A zoom factor that is not
    /// positive is not taken.
    pub fn set_drawn(&mut self, zoom_factor: i32, scroll_delta: Vec2)
        ensures
            final(self)@ == old(self)@.drawn_for(zoom_factor, scroll_delta),
    {
        proof {
            use_type_invariant(&*self);
        }
        if zoom_factor > 0 {
            self.zoom_factor = zoom_factor;
        }
        self.scroll_delta = scroll_delta;
    }

    /// Sets both ends of the edge and the two end points of its polyline.
    pub fn set_ends(&mut self, start: EdgeVertex, end: EdgeVertex, first: Pos2, last: Pos2)
        ensures
            final(self)@ == old(self)@.with_ends(start, end, first, last),
    {
        proof {
            use_type_invariant(&*self);
        }
        let at: usize = self.points.len() - 1;
        let moved = with_point(&self.points, 0, first);
        let points = with_point(&moved, at, last);
        self.start = start;
        self.end = end;
        self.points = points;
    }

    /// Sets free, where they lie, the ends of the edge that are bound to the
    /// cell `id`.
    pub fn release(&mut self, id: u64)
        ensures
            final(self)@ == old(self)@.released(id),
    {
        proof {
            use_type_invariant(&*self);
        }
        let at: usize = self.points.len() - 1;
        let start = release_vertex(self.start, id, self.points[0]);
        let end = release_vertex(self.end, id, self.points[at]);
        self.start = start;
        self.end = end;
    }

    /// Computes line points: resolves both ends against the store.
    pub fn compute_points(&mut self, cells: &CellStore)
        ensures
            final(self)@ == old(self)@.recomputed(cells@),
    {
        proof {
            use_type_invariant(&*self);
        }
        let last: usize = self.points.len() - 1;
        let start_point = resolve_point(self.start, self.points[0], cells);
        let end_point = resolve_point(self.end, self.points[last], cells);
        let start = resolve_vertex(self.start, self.points[0], cells);
        let end = resolve_vertex(self.end, self.points[last], cells);
        self.set_ends(start, end, start_point, end_point);
    }

    /// Checks whether the line contains the given point, and how: on a
    /// vertex of the polyline, on the line, or not at all.
    pub fn contains(&self, point: Pos2) -> (r: Option<Contained>)
        ensures
            r == self@.hit(point),
    {
        match find_within(&self.points, point, self.epsilon) {
            Some(idx) => Some(Contained::ConnectionPoint(idx)),
            None => if point.belong_path(&self.points, self.epsilon) {
                Some(Contained::InArea)
            } else {
                None
            },
        }
    }

    /// Draws the edge anew for the view's zoom factor and scroll.
    pub fn draw_transform(&mut self, zoom_factor: i32, scroll_delta: Vec2)
        ensures
            final(self)@ == old(self)@.transformed(zoom_factor, scroll_delta),
    {
        proof {
            use_type_invariant(&*self);
        }
        let scrolled = !(scroll_delta.x == self.scroll_delta.x && scroll_delta.y == self.scroll_delta.y);
        let previous = self.zoom_factor;
        let start = redraw_vertex(self.start, zoom_factor, previous, scrolled, scroll_delta);
        let end = redraw_vertex(self.end, zoom_factor, previous, scrolled, scroll_delta);
        let points = redraw_points(&self.points, zoom_factor, previous, scrolled, scroll_delta);
        self.start = start;
        self.end = end;
        self.points = points;
        if zoom_factor > 0 {
            self.zoom_factor = zoom_factor;
        }
        self.scroll_delta = scroll_delta;
    }
}

/// An edge drawn anew for the view that it was last drawn for stays as it
/// is: the zoom relative to its own factor is one, and a scroll that has not
/// changed moves nothing.
pub proof fn lemma_redraw_same_view(edge: EdgeModel)
    requires
        edge.wf(),
    ensures
        edge.transformed(edge.zoom_factor, edge.scroll_delta) == edge,
{
    let drawn = edge.transformed(edge.zoom_factor, edge.scroll_delta);
    assert forall|p: Pos2| p.redrawn(edge.zoom_factor, edge.zoom_factor, false, edge.scroll_delta) == p by {
        lemma_rescale_same(p.x, edge.zoom_factor);
        lemma_rescale_same(p.y, edge.zoom_factor);
    }
    assert(drawn.points =~= edge.points);
}

/// An edge whose end is bound to a connection point of a cell lies with that
/// end on the connection point once it is computed. When the cell is then
/// removed from the store and the edge computed again, the end stays where
/// it lay, set free, and the rest of the polyline stays too.
pub proof fn lemma_edge_degrades(edge: EdgeModel, store: StoreModel, cell: u64, idx: usize)
    requires
        edge.wf(),
        store.wf(),
        store.cells.contains_key(cell),
        idx < store.cells[cell].connection_points.len(),
    ensures
        ({
            let bound = (EdgeModel { end: EdgeVertex::Cell(cell, idx), ..edge }).recomputed(store);
            let after = bound.recomputed(store.removed(cell));
            &&& bound.points.last() == store.cells[cell].connection_points[idx as int]
            &&& after.end == EdgeVertex::Pos(bound.points.last())
            &&& after.points == bound.points
        }),
{
    let bound = (EdgeModel { end: EdgeVertex::Cell(cell, idx), ..edge }).recomputed(store);
    let gone = store.removed(cell);
    let after = bound.recomputed(gone);
    assert(gone.was_deleted(cell));
    assert forall|k: u64| gone.cells.contains_key(k) implies gone.cells[k].connection_points
        == store.cells[k].connection_points by {}
    assert(after.points =~= bound.points);
}

/// Computing an edge moves nothing but the two ends of its polyline: the
/// first and the last point lie where the ends resolve to, and every way
/// point between them stays.
pub proof fn lemma_recompute_keeps_way_points(edge: EdgeModel, store: StoreModel)
    requires
        edge.wf(),
    ensures
        edge.recomputed(store).points.len() == edge.points.len(),
        edge.recomputed(store).points[0] == resolved_point(edge.start, edge.points[0], store),
        edge.recomputed(store).points.last() == resolved_point(edge.end, edge.points.last(), store),
        forall|i: int|
            0 < i < edge.points.len() - 1 ==> edge.recomputed(store).points[i] == edge.points[i],
{
}

/// An edge that has released a cell is bound to it at neither end.
pub proof fn lemma_release_unbinds(edge: EdgeModel, id: u64)
    ensures
        !(edge.released(id).start matches EdgeVertex::Cell(cell, idx) && cell == id),
        !(edge.released(id).end matches EdgeVertex::Cell(cell, idx) && cell == id),
{
}

} // verus!
