//! Cells: the nodes and edges of a diagram.

use vstd::prelude::*;
use crate::edge::{EdgeModel, UnMxEdge};
use crate::figure::{
    find_over, find_within, first_over, first_within, last_hit, lemma_scale_same, lemma_points_round_trip, lemma_translate_round_trip,
    points_move_freely, shape_models, translate_points, translated_points, Contained, Figure, FigureModel,
};
use crate::geometry::{Pos2, Rect, Vec2, UNIT};
use crate::line::{part_point, TwoPosLine};

verus! {

/// What the pointer is doing with a cell.
#[derive(Clone, Copy, Debug, PartialEq, Eq, Structural)]
pub enum MxCellState {
    Selected,
    Hovered,
    Dragging,
    Free,
}

/// The role of a node: it lists the edges that end on it.
#[derive(Debug)]
pub struct MxConnectable {
    pub edges: Vec<u64>,
}

/// The role of a cell.
#[derive(Debug)]
pub enum CellType {
    Edge(UnMxEdge),
    Connectable(MxConnectable),
}

/// A node or an edge of the diagram.
#[derive(Debug)]
pub struct MxCell {
    pub id: u64,
    pub cell_type: CellType,
    /// Array of shapes which must be enough to describe the figure
    pub shapes: Vec<Figure>,
    pub connection_points: Vec<Pos2>,
    pub state: MxCellState,
    /// The zoom factor the cell was last drawn with.
    pub zoom_factor: i32,
    /// The scroll the cell was last drawn with.
    pub scroll_delta: Vec2,
}

/// What a cell's role is, as a mathematical value.
pub enum CellTypeModel {
    Edge(EdgeModel),
    Connectable(Seq<u64>),
}

/// What an [`MxCell`] is, as a mathematical value.
pub struct CellModel {
    pub id: u64,
    pub cell_type: CellTypeModel,
    pub shapes: Seq<FigureModel>,
    pub connection_points: Seq<Pos2>,
    pub state: MxCellState,
    pub zoom_factor: i32,
    pub scroll_delta: Vec2,
}

/// The shapes of `shapes`, each moved by `delta`.
pub open spec fn translated_shapes(shapes: Seq<FigureModel>, delta: Vec2) -> Seq<FigureModel> {
    Seq::new(shapes.len(), |i: int| shapes[i].translated(delta))
}

/// The shapes of `shapes`, each scaled about the origin by `num / den`.
pub open spec fn scaled_shapes(shapes: Seq<FigureModel>, num: i32, den: i32) -> Seq<FigureModel> {
    Seq::new(shapes.len(), |i: int| shapes[i].scaled(num, den))
}

/// The index of the first rectangle among `shapes`, from index `from` on.
pub open spec fn frame_index(shapes: Seq<FigureModel>, from: int) -> Option<int>
    decreases shapes.len() - from,
{
    if from < 0 || from >= shapes.len() {
        None
    } else if shapes[from] is Rect {
        Some(from)
    } else {
        frame_index(shapes, from + 1)
    }
}

/// The frame of a cell: the first rectangle among its shapes.
pub open spec fn frame_of(shapes: Seq<FigureModel>) -> Option<Rect> {
    match frame_index(shapes, 0) {
        Some(idx) => Some(shapes[idx]->Rect_rect),
        None => None,
    }
}

/// The connection points of a rectangle: each side is divided into four
/// parts, and the three dividing points between its corners are connection
/// points; the corners are not. They run round the rectangle from the top
/// side over the right and the bottom to the left side. A rectangle without
/// area has none.
pub open spec fn rect_connection_points(rect: Rect) -> Seq<Pos2> {
    if !rect.spec_has_area() {
        Seq::empty()
    } else {
        let lt = rect.spec_left_top();
        let rt = rect.spec_right_top();
        let rb = rect.spec_right_bottom();
        let lb = rect.spec_left_bottom();
        seq![
            part_point(lt, rt, 1, 4),
            part_point(lt, rt, 2, 4),
            part_point(lt, rt, 3, 4),
            part_point(rt, rb, 1, 4),
            part_point(rt, rb, 2, 4),
            part_point(rt, rb, 3, 4),
            part_point(rb, lb, 1, 4),
            part_point(rb, lb, 2, 4),
            part_point(rb, lb, 3, 4),
            part_point(lb, lt, 1, 4),
            part_point(lb, lt, 2, 4),
            part_point(lb, lt, 3, 4),
        ]
    }
}

/// The connection points that a list of shapes gives: those of its frame, and
/// none without a frame.
pub open spec fn shapes_connection_points(shapes: Seq<FigureModel>) -> Seq<Pos2> {
    match frame_of(shapes) {
        Some(rect) => rect_connection_points(rect),
        None => Seq::empty(),
    }
}

/// The shapes with the rectangle of the frame replaced by `rect`; unchanged
/// without a frame.
pub open spec fn with_frame(shapes: Seq<FigureModel>, rect: Rect) -> Seq<FigureModel> {
    match frame_index(shapes, 0) {
        Some(idx) => shapes.update(
            idx,
            FigureModel::Rect { rect, fill: shapes[idx]->Rect_fill, stroke: shapes[idx]->Rect_stroke },
        ),
        None => shapes,
    }
}

/// The identifiers of `ids` without `id`, in their order.
pub open spec fn without(ids: Seq<u64>, id: u64) -> Seq<u64>
    decreases ids.len(),
{
    if ids.len() == 0 {
        ids
    } else if ids.last() == id {
        without(ids.drop_last(), id)
    } else {
        without(ids.drop_last(), id).push(ids.last())
    }
}

/// A change that the store applies to a cell.
#[derive(Clone, Copy, Debug, PartialEq, Eq, Structural)]
pub enum CellChange {
    /// The cell gets the state.
    SetState(MxCellState),
    /// A cell in the state becomes free.
    Clear(MxCellState),
    /// The cell with the identifier has left the diagram: an edge sets free
    /// the ends bound to it, a node forgets it as an edge.
    Release(u64),
    /// The cell is drawn anew for a zoom factor and a scroll.
    Redraw(i32, Vec2),
    /// The cell moves.
    Translate(Vec2),
    /// The cell gets a new frame.
    Frame(Rect),
    /// A node notes the edge with the identifier as one that ends on it.
    Attach(u64),
}

impl CellModel {
    /// The cell of an edge: free, without shapes or connection points.
    pub open spec fn of_edge(id: u64, edge: EdgeModel) -> CellModel {
        CellModel {
            id,
            cell_type: CellTypeModel::Edge(edge),
            shapes: Seq::empty(),
            connection_points: Seq::empty(),
            state: MxCellState::Free,
            zoom_factor: UNIT,
            scroll_delta: Vec2 { x: 0, y: 0 },
        }
    }

    /// The cell after a change.
    pub open spec fn changed(self, change: CellChange) -> CellModel {
        match change {
            CellChange::SetState(state) => CellModel { state, ..self },
            CellChange::Clear(state) => if self.state == state {
                CellModel { state: MxCellState::Free, ..self }
            } else {
                self
            },
            CellChange::Release(id) => CellModel {
                cell_type: match self.cell_type {
                    CellTypeModel::Edge(edge) => CellTypeModel::Edge(edge.released(id)),
                    CellTypeModel::Connectable(ids) => CellTypeModel::Connectable(without(ids, id)),
                },
                ..self
            },
            CellChange::Redraw(zoom_factor, scroll_delta) => CellModel {
                cell_type: match self.cell_type {
                    CellTypeModel::Edge(edge) => CellTypeModel::Edge(edge.transformed(zoom_factor, scroll_delta)),
                    CellTypeModel::Connectable(ids) => self.cell_type,
                },
                ..self.transformed(zoom_factor, scroll_delta)
            },
            CellChange::Translate(delta) => self.translated(delta),
            CellChange::Frame(rect) => self.framed(rect),
            CellChange::Attach(id) => match self.cell_type {
                CellTypeModel::Edge(edge) => self,
                CellTypeModel::Connectable(ids) => CellModel {
                    cell_type: CellTypeModel::Connectable(
                        if ids.contains(id) {
                            ids
                        } else {
                            ids.push(id)
                        },
                    ),
                    ..self
                },
            },
        }
    }

    /// The cell moved by `delta`: its shapes and its connection points.
    pub open spec fn translated(self, delta: Vec2) -> CellModel {
        CellModel {
            shapes: translated_shapes(self.shapes, delta),
            connection_points: translated_points(self.connection_points, delta),
            ..self
        }
    }

    /// The cell with its shapes scaled about the origin by `num / den` and
    /// its connection points taken anew from the scaled shapes.
    pub open spec fn scaled(self, num: i32, den: i32) -> CellModel {
        CellModel {
            shapes: scaled_shapes(self.shapes, num, den),
            connection_points: shapes_connection_points(scaled_shapes(self.shapes, num, den)),
            ..self
        }
    }

    /// The cell with its connection points taken anew from its shapes.
    pub open spec fn reconnected(self) -> CellModel {
        CellModel { connection_points: shapes_connection_points(self.shapes), ..self }
    }

    /// The cell with the given frame, and the connection points of that
    /// frame. A cell without a frame stays as it is.
    pub open spec fn framed(self, rect: Rect) -> CellModel {
        match frame_index(self.shapes, 0) {
            Some(idx) => CellModel {
                shapes: with_frame(self.shapes, rect),
                connection_points: rect_connection_points(rect),
                ..self
            },
            None => self,
        }
    }

    /// The index of the connection point strictly nearer than `tolerance` to
    /// `point` that comes first.
    pub open spec fn connection_over(self, point: Pos2, tolerance: u32) -> Option<usize> {
        match first_over(self.connection_points, 0, point, tolerance) {
            Some(idx) => Some(idx as usize),
            None => None,
        }
    }

    /// The connection point within `epsilon` of `point` that comes first.
    pub open spec fn connection_hit(self, point: Pos2, epsilon: u32) -> Option<Contained> {
        match first_within(self.connection_points, 0, point, epsilon) {
            Some(idx) => Some(Contained::ConnectionPoint(idx as usize)),
            None => None,
        }
    }

    /// How `point` lies in the shapes of the cell: the answer of the shape
    /// added last among those that hold the point.
    pub open spec fn body_hit(self, point: Pos2, epsilon: u32) -> Option<Contained> {
        last_hit(self.shapes, self.shapes.len() as int, point, epsilon)
    }

    /// How `point` lies in the cell. An edge answers by its polyline and its
    /// own tolerance. A selected node answers only with its connection
    /// points; any other node answers by its shapes.
    pub open spec fn hit(self, point: Pos2, epsilon: u32) -> Option<Contained> {
        match self.cell_type {
            CellTypeModel::Edge(edge) => edge.hit(point),
            CellTypeModel::Connectable(edges) => if self.state == MxCellState::Selected {
                self.connection_hit(point, epsilon)
            } else {
                self.body_hit(point, epsilon)
            },
        }
    }

    /// The cell drawn anew for the view's zoom factor and scroll. The zoom is
    /// applied relative to the factor the cell was last drawn with, where
    /// both are positive; the scroll where it differs from the one the cell
    /// was last drawn with. The connection points are then taken anew from
    /// the shapes.
    pub open spec fn transformed(self, zoom_factor: i32, scroll_delta: Vec2) -> CellModel {
        let zoomed = if zoom_factor > 0 && self.zoom_factor > 0 {
            scaled_shapes(self.shapes, zoom_factor, self.zoom_factor)
        } else {
            self.shapes
        };
        let moved = if scroll_delta != self.scroll_delta {
            translated_shapes(zoomed, scroll_delta)
        } else {
            zoomed
        };
        CellModel {
            shapes: moved,
            connection_points: shapes_connection_points(moved),
            zoom_factor: if zoom_factor > 0 {
                zoom_factor
            } else {
                self.zoom_factor
            },
            scroll_delta,
            ..self
        }
    }
}

impl View for MxConnectable {
    type V = Seq<u64>;

    open spec fn view(&self) -> Seq<u64> {
        self.edges@
    }
}

impl View for CellType {
    type V = CellTypeModel;

    open spec fn view(&self) -> CellTypeModel {
        match self {
            CellType::Edge(edge) => CellTypeModel::Edge(edge@),
            CellType::Connectable(node) => CellTypeModel::Connectable(node.edges@),
        }
    }
}

impl View for MxCell {
    type V = CellModel;

    open spec fn view(&self) -> CellModel {
        CellModel {
            id: self.id,
            cell_type: self.cell_type@,
            shapes: shape_models(self.shapes@),
            connection_points: self.connection_points@,
            state: self.state,
            zoom_factor: self.zoom_factor,
            scroll_delta: self.scroll_delta,
        }
    }
}

/// Moves every shape of `shapes` by `delta`.
pub fn translate_shapes(shapes: &mut Vec<Figure>, delta: Vec2)
    ensures
        shape_models(final(shapes)@) == translated_shapes(shape_models(old(shapes)@), delta),
{
    let mut idx: usize = 0;
    while idx < shapes.len()
        invariant
            idx <= shapes.len(),
            shapes.len() == old(shapes).len(),
            forall|i: int| 0 <= i < idx ==> (#[trigger] shapes@[i])@ == old(shapes)@[i]@.translated(delta),
            forall|i: int| idx <= i < shapes.len() ==> shapes@[i] == old(shapes)@[i],
        decreases shapes.len() - idx,
    {
        shapes[idx].translate(delta);
        idx += 1;
    }
    assert(shape_models(shapes@) =~= translated_shapes(shape_models(old(shapes)@), delta));
}

/// Scales every shape of `shapes` about the origin by `num / den`.
pub fn scale_shapes(shapes: &mut Vec<Figure>, num: i32, den: i32)
    ensures
        shape_models(final(shapes)@) == scaled_shapes(shape_models(old(shapes)@), num, den),
{
    let mut idx: usize = 0;
    while idx < shapes.len()
        invariant
            idx <= shapes.len(),
            shapes.len() == old(shapes).len(),
            forall|i: int| 0 <= i < idx ==> (#[trigger] shapes@[i])@ == old(shapes)@[i]@.scaled(num, den),
            forall|i: int| idx <= i < shapes.len() ==> shapes@[i] == old(shapes)@[i],
        decreases shapes.len() - idx,
    {
        shapes[idx].scale(num, den);
        idx += 1;
    }
    assert(shape_models(shapes@) =~= scaled_shapes(shape_models(old(shapes)@), num, den));
}

/// The index of the first rectangle among `shapes`.
pub fn find_frame(shapes: &Vec<Figure>) -> (r: Option<usize>)
    ensures
        match r {
            Some(idx) => frame_index(shape_models(shapes@), 0) == Some(idx as int) && idx < shapes.len()
                && shapes@[idx as int] is Rect,
            None => frame_index(shape_models(shapes@), 0) is None,
        },
{
    let mut idx: usize = 0;
    while idx < shapes.len()
        invariant
            idx <= shapes.len(),
            frame_index(shape_models(shapes@), 0) == frame_index(shape_models(shapes@), idx as int),
        decreases shapes.len() - idx,
    {
        if let Figure::Rect { .. } = &shapes[idx] {
            return Some(idx);
        }
        idx += 1;
    }
    None
}

/// The connection points of a rectangle.
pub fn connection_points_of(rect: Rect) -> (r: Vec<Pos2>)
    ensures
        r@ == rect_connection_points(rect),
{
    let mut points: Vec<Pos2> = Vec::new();
    if !rect.has_area() {
        return points;
    }
    let top = TwoPosLine::new([rect.left_top(), rect.right_top()]).split(4);
    let right = TwoPosLine::new([rect.right_top(), rect.right_bottom()]).split(4);
    let bottom = TwoPosLine::new([rect.right_bottom(), rect.left_bottom()]).split(4);
    let left = TwoPosLine::new([rect.left_bottom(), rect.left_top()]).split(4);
    points.push(top[1]);
    points.push(top[2]);
    points.push(top[3]);
    points.push(right[1]);
    points.push(right[2]);
    points.push(right[3]);
    points.push(bottom[1]);
    points.push(bottom[2]);
    points.push(bottom[3]);
    points.push(left[1]);
    points.push(left[2]);
    points.push(left[3]);
    assert(points@ =~= rect_connection_points(rect));
    points
}

/// The connection points that a list of shapes gives.
pub fn connection_points_from(shapes: &Vec<Figure>) -> (r: Vec<Pos2>)
    ensures
        r@ == shapes_connection_points(shape_models(shapes@)),
{
    match find_frame(shapes) {
        Some(idx) => match &shapes[idx] {
            Figure::Rect { rect, .. } => connection_points_of(*rect),
            _ => Vec::new(),
        },
        None => Vec::new(),
    }
}

/// The identifiers of `ids` without `id`, in their order.
pub fn remove_id(ids: &Vec<u64>, id: u64) -> (r: Vec<u64>)
    ensures
        r@ == without(ids@, id),
{
    let mut out: Vec<u64> = Vec::new();
    let mut idx: usize = 0;
    while idx < ids.len()
        invariant
            idx <= ids.len(),
            out@ == without(ids@.take(idx as int), id),
        decreases ids.len() - idx,
    {
        assert(ids@.take(idx + 1).drop_last() =~= ids@.take(idx as int));
        if ids[idx] != id {
            out.push(ids[idx]);
        }
        idx += 1;
    }
    assert(ids@.take(ids.len() as int) =~= ids@);
    out
}

/// Whether `ids` holds `id`.
pub fn holds_id(ids: &Vec<u64>, id: u64) -> (r: bool)
    ensures
        r == ids@.contains(id),
{
    let mut idx: usize = 0;
    while idx < ids.len()
        invariant
            idx <= ids.len(),
            forall|i: int| 0 <= i < idx ==> ids@[i] != id,
        decreases ids.len() - idx,
    {
        if ids[idx] == id {
            return true;
        }
        idx += 1;
    }
    false
}

impl MxCell {
    /// Applies a change to the cell.
    pub fn apply(&mut self, change: CellChange)
        ensures
            final(self)@ == old(self)@.changed(change),
    {
        match change {
            CellChange::SetState(state) => {
                self.state = state;
            },
            CellChange::Clear(state) => {
                if self.state == state {
                    self.state = MxCellState::Free;
                }
            },
            CellChange::Release(id) => {
                match &mut self.cell_type {
                    CellType::Edge(edge) => {
                        edge.release(id);
                    },
                    CellType::Connectable(node) => {
                        node.edges = remove_id(&node.edges, id);
                    },
                }
            },
            CellChange::Redraw(zoom_factor, scroll_delta) => {
                match &mut self.cell_type {
                    CellType::Edge(edge) => {
                        edge.draw_transform(zoom_factor, scroll_delta);
                    },
                    CellType::Connectable(node) => {},
                }
                self.draw_transform(zoom_factor, scroll_delta);
            },
            CellChange::Translate(delta) => {
                self.translate(delta);
            },
            CellChange::Frame(rect) => {
                self.set_frame(rect);
            },
            CellChange::Attach(id) => {
                match &mut self.cell_type {
                    CellType::Edge(edge) => {},
                    CellType::Connectable(node) => {
                        if !holds_id(&node.edges, id) {
                            node.edges.push(id);
                        }
                    },
                }
            },
        }
    }

    /// Constructs a new empty node.
    pub fn new(id: u64) -> (r: MxCell)
        ensures
            r@ == (CellModel {
                id,
                cell_type: CellTypeModel::Connectable(Seq::empty()),
                shapes: Seq::empty(),
                connection_points: Seq::empty(),
                state: MxCellState::Free,
                zoom_factor: UNIT,
                scroll_delta: Vec2 { x: 0, y: 0 },
            }),
    {
        let r = MxCell {
            id,
            cell_type: CellType::Connectable(MxConnectable { edges: Vec::new() }),
            shapes: Vec::new(),
            connection_points: Vec::new(),
            state: MxCellState::Free,
            zoom_factor: UNIT,
            scroll_delta: Vec2 { x: 0, y: 0 },
        };
        assert(r@.shapes =~= Seq::empty());
        assert(r@.connection_points =~= Seq::empty());
        assert(r@.cell_type->Connectable_0 =~= Seq::empty());
        r
    }

    /// Constructs an empty edge: both ends free at the origin.
    pub fn new_edge(id: u64) -> (r: MxCell)
        ensures
            r@ == (CellModel {
                id,
                cell_type: CellTypeModel::Edge(
                    EdgeModel::between(
                        crate::edge::EdgeVertex::Pos(Pos2 { x: 0, y: 0 }),
                        crate::edge::EdgeVertex::Pos(Pos2 { x: 0, y: 0 }),
                    ),
                ),
                shapes: Seq::empty(),
                connection_points: Seq::empty(),
                state: MxCellState::Free,
                zoom_factor: UNIT,
                scroll_delta: Vec2 { x: 0, y: 0 },
            }),
    {
        let r = MxCell {
            id,
            cell_type: CellType::Edge(UnMxEdge::new(None, None)),
            shapes: Vec::new(),
            connection_points: Vec::new(),
            state: MxCellState::Free,
            zoom_factor: UNIT,
            scroll_delta: Vec2 { x: 0, y: 0 },
        };
        assert(r@.shapes =~= Seq::empty());
        assert(r@.connection_points =~= Seq::empty());
        r
    }

    /// Constructs the cell of an edge.
    pub fn with_edge(id: u64, edge: UnMxEdge) -> (r: MxCell)
        ensures
            r@ == CellModel::of_edge(id, edge@),
    {
        let r = MxCell {
            id,
            cell_type: CellType::Edge(edge),
            shapes: Vec::new(),
            connection_points: Vec::new(),
            state: MxCellState::Free,
            zoom_factor: UNIT,
            scroll_delta: Vec2 { x: 0, y: 0 },
        };
        assert(r@.shapes =~= Seq::empty());
        assert(r@.connection_points =~= Seq::empty());
        r
    }

    /// Moves all the shapes and the connection points by `delta`, in place.
    pub fn translate(&mut self, delta: Vec2)
        ensures
            final(self)@ == old(self)@.translated(delta),
    {
        translate_shapes(&mut self.shapes, delta);
        translate_points(&mut self.connection_points, delta);
    }

    /// Zooms all the shapes by the given factor and takes the connection
    /// points anew from them.
    pub fn zoom(&mut self, zoom_factor: i32)
        ensures
            final(self)@ == old(self)@.scaled(zoom_factor, UNIT),
    {
        scale_shapes(&mut self.shapes, zoom_factor, UNIT);
        self.connection_points = connection_points_from(&self.shapes);
    }

    pub fn connection_points(&self) -> (r: &Vec<Pos2>)
        ensures
            r@ == self@.connection_points,
    {
        &self.connection_points
    }

    pub fn set_state(&mut self, state: MxCellState)
        ensures
            final(self)@ == (CellModel { state, ..old(self)@ }),
    {
        self.state = state;
    }

    pub fn state(&self) -> (r: MxCellState)
        ensures
            r == self@.state,
    {
        self.state
    }

    /// Takes the connection points anew from the shapes of the cell.
    pub fn recompute_connection_points(&mut self)
        ensures
            final(self)@ == old(self)@.reconnected(),
    {
        self.connection_points = connection_points_from(&self.shapes);
    }

    /// The frame of the cell: the first rectangle among its shapes.
    pub fn frame(&self) -> (r: Option<Rect>)
        ensures
            r == frame_of(self@.shapes),
    {
        match find_frame(&self.shapes) {
            Some(idx) => match &self.shapes[idx] {
                Figure::Rect { rect, .. } => Some(*rect),
                _ => None,
            },
            None => None,
        }
    }

    /// Gives the cell a new frame and the connection points of that frame.
    /// A cell without a frame stays as it is.
    pub fn set_frame(&mut self, frame: Rect)
        ensures
            final(self)@ == old(self)@.framed(frame),
    {
        match find_frame(&self.shapes) {
            Some(idx) => {
                let ghost before = self.shapes@;
                match &mut self.shapes[idx] {
                    Figure::Rect { rect, .. } => {
                        *rect = frame;
                    },
                    _ => {},
                }
                self.connection_points = connection_points_of(frame);
                assert(shape_models(self.shapes@) =~= with_frame(shape_models(before), frame));
            },
            None => {},
        }
    }

    /// Finds the connection point at the given position.
    /// ### Arguments
    /// * point - position used to find the connection point
    /// * epsilon - tolerance within which a connection point counts
    /// ### Return
    /// * the first connection point within the tolerance, by its index
    pub fn find_cp(&self, point: Pos2, epsilon: u32) -> (r: Option<Contained>)
        ensures
            r == self@.connection_hit(point, epsilon),
    {
        match find_within(&self.connection_points, point, epsilon) {
            Some(idx) => Some(Contained::ConnectionPoint(idx)),
            None => None,
        }
    }

    /// The index of the first connection point that the pointer at `point`
    /// lies over: the first one strictly nearer than `tolerance`.
    pub fn find_cp_over(&self, point: Pos2, tolerance: u32) -> (r: Option<usize>)
        ensures
            r == self@.connection_over(point, tolerance),
    {
        find_over(&self.connection_points, point, tolerance)
    }

    /// How the point lies in the shapes of the cell, whatever its state. The
    /// shapes are asked in reverse order, so that the shape added last wins.
    pub fn hit_shapes(&self, point: Pos2, epsilon: u32) -> (r: Option<Contained>)
        ensures
            r == self@.body_hit(point, epsilon),
    {
        let mut idx: usize = self.shapes.len();
        while idx > 0
            invariant
                idx <= self.shapes.len(),
                self@.body_hit(point, epsilon) == last_hit(self@.shapes, idx as int, point, epsilon),
            decreases idx,
        {
            idx -= 1;
            let hit = self.shapes[idx].contains(point, epsilon);
            if hit.is_some() {
                return hit;
            }
        }
        None
    }

    /// Checks whether the given point belongs to the cell, and how.
    /// ### Arguments
    /// * point - position to check
    /// * epsilon - tolerance of the check
    pub fn contains(&self, point: Pos2, epsilon: u32) -> (r: Option<Contained>)
        ensures
            r == self@.hit(point, epsilon),
    {
        match &self.cell_type {
            CellType::Edge(edge) => edge.contains(point),
            _ => match self.state {
                MxCellState::Selected => self.find_cp(point, epsilon),
                _ => self.hit_shapes(point, epsilon),
            },
        }
    }

    /// Draws the cell anew for the view's zoom factor and scroll.
    pub fn draw_transform(&mut self, zoom_factor: i32, scroll_delta: Vec2)
        ensures
            final(self)@ == old(self)@.transformed(zoom_factor, scroll_delta),
    {
        if zoom_factor > 0 && self.zoom_factor > 0 {
            scale_shapes(&mut self.shapes, zoom_factor, self.zoom_factor);
        }
        if !(scroll_delta.x == self.scroll_delta.x && scroll_delta.y == self.scroll_delta.y) {
            translate_shapes(&mut self.shapes, scroll_delta);
        }
        if zoom_factor > 0 {
            self.zoom_factor = zoom_factor;
        }
        self.scroll_delta = scroll_delta;
        self.connection_points = connection_points_from(&self.shapes);
    }
}

impl CellModel {
    /// Whether every coordinate of the cell can move by `delta` and back
    /// without meeting the edge of the grid.
    pub open spec fn moves_freely(self, delta: Vec2) -> bool {
        &&& forall|i: int| 0 <= i < self.shapes.len() ==> (#[trigger] self.shapes[i]).moves_freely(delta)
        &&& points_move_freely(self.connection_points, delta)
    }
}

/// A cell that moves by `delta` and then by its opposite has its shapes and
/// its connection points back where they were, as long as no coordinate
/// meets the edge of the grid on the way.
pub proof fn lemma_cell_round_trip(cell: CellModel, delta: Vec2)
    requires
        cell.moves_freely(delta),
    ensures
        cell.translated(delta).translated(delta.spec_neg()) == cell,
{
    let back = cell.translated(delta).translated(delta.spec_neg());
    assert forall|i: int| 0 <= i < cell.shapes.len() implies back.shapes[i] == cell.shapes[i] by {
        assert(cell.shapes[i].moves_freely(delta));
        lemma_translate_round_trip(cell.shapes[i], delta);
    }
    assert(back.shapes =~= cell.shapes);
    lemma_points_round_trip(cell.connection_points, delta);
}

/// A list of identifiers without `id` holds `id` no more, and holds every
/// other identifier that it held.
pub proof fn lemma_without_forgets(ids: Seq<u64>, id: u64)
    ensures
        !without(ids, id).contains(id),
        forall|other: u64| other != id ==> (without(ids, id).contains(other) <==> ids.contains(other)),
    decreases ids.len(),
{
    if ids.len() > 0 {
        let head = ids.drop_last();
        let last = ids.last();
        let rest = without(head, id);
        let all = without(ids, id);
        lemma_without_forgets(head, id);
        assert forall|other: u64| head.contains(other) || other == last <==> ids.contains(other) by {
            if head.contains(other) {
                let i = head.index_of(other);
                assert(ids[i] == other);
            }
            if other == last {
                assert(ids[ids.len() - 1] == other);
            }
            if ids.contains(other) {
                let i = ids.index_of(other);
                if i < head.len() {
                    assert(head[i] == other);
                }
            }
        }
        if last == id {
            assert(all == rest);
        } else {
            assert(all == rest.push(last));
            assert forall|other: u64| all.contains(other) <==> rest.contains(other) || other == last by {
                if all.contains(other) {
                    let j = all.index_of(other);
                    if j < rest.len() {
                        assert(rest[j] == other);
                    }
                }
                if rest.contains(other) {
                    let j = rest.index_of(other);
                    assert(all[j] == other);
                }
                if other == last {
                    assert(all[rest.len() as int] == other);
                }
            }
        }
        assert forall|other: u64| other != id implies (all.contains(other) <==> ids.contains(other)) by {
            assert(rest.contains(other) <==> head.contains(other));
        }
    }
}

impl CellModel {
    /// Whether the corners of every rectangle of the cell lie the right way
    /// round, and the connection points are those that the shapes give.
    pub open spec fn settled(self) -> bool {
        &&& forall|i: int| 0 <= i < self.shapes.len() ==> (#[trigger] self.shapes[i]).ordered()
        &&& self.connection_points == shapes_connection_points(self.shapes)
    }
}

/// A settled cell drawn anew for the view that it was last drawn for stays as
/// it is: the zoom relative to its own factor is one, and a scroll that has
/// not changed moves nothing.
pub proof fn lemma_cell_redraw_same_view(cell: CellModel)
    requires
        cell.settled(),
    ensures
        cell.transformed(cell.zoom_factor, cell.scroll_delta) == cell,
{
    if cell.zoom_factor > 0 {
        let scaled = scaled_shapes(cell.shapes, cell.zoom_factor, cell.zoom_factor);
        assert forall|i: int| 0 <= i < cell.shapes.len() implies scaled[i] == cell.shapes[i] by {
            assert(cell.shapes[i].ordered());
            lemma_scale_same(cell.shapes[i], cell.zoom_factor);
        }
        assert(scaled =~= cell.shapes);
    }
}

} // verus!
