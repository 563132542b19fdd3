//! The interaction controller: what pointer events do to the diagram.
//!
//! The controller runs on one thread, once per frame. Every event carries the
//! position of the pointer; zoom and scroll are told apart from the events
//! and applied when the diagram is drawn.

use vstd::prelude::*;
use crate::cell::{
    frame_of, rect_connection_points, CellChange, CellModel, CellType, CellTypeModel, MxCell, MxCellState,
    MxConnectable,
};
use crate::edge::{EdgeModel, EdgeVertex, UnMxEdge};
use crate::figure::{Color32, Contained, Figure, FigureModel, Stroke};
use crate::geometry::{sat, Pos2, Rect, Vec2, UNIT};
use crate::messages::{
    decimal, id_text, message_models, named_id, parse_id, AddArrow, AddFigure, MessageModel, MousePosition,
    RequestInfo, RequestModel, WsMessages,
};
use crate::shapes::{DragMode, FigureBasics};
use crate::store::{lemma_selected_lives, CellStore, StoreModel};

verus! {

/// Tolerance of the hit test of cells: five units.
pub const EPSILON: u32 = 5000;

/// Tolerance under which the pointer lies over a connection point: seven
/// units. A point at exactly this distance is not under the pointer.
pub const POINT_OVER_TOLERANCE: u32 = 7000;

/// The view of the canvas: how far it is scrolled and how much it is
/// zoomed.
#[derive(Clone, Copy, Debug, PartialEq, Eq, Structural)]
pub struct Transform {
    pub scroll_delta: Vec2,
    pub zoom_factor: i32,
}

/// What the pointer is doing.
#[derive(Debug)]
pub enum GraphState {
    /// A new cell is being placed: the cell is stretched from where the drag
    /// started.
    Tool(MxCell),
    /// A new edge is being drawn from a connection point.
    Arrow(UnMxEdge),
    /// The cell with the identifier is being moved or resized.
    Dragged(u64, DragMode),
    /// The pointer rests on the cell with the identifier.
    Hovering(u64),
    Nothing,
}

/// What a [`GraphState`] is, as a mathematical value.
pub enum StateModel {
    Tool(CellModel),
    Arrow(EdgeModel),
    Dragged(u64, DragMode),
    Hovering(u64),
    Nothing,
}

impl View for GraphState {
    type V = StateModel;

    open spec fn view(&self) -> StateModel {
        match self {
            GraphState::Tool(cell) => StateModel::Tool(cell@),
            GraphState::Arrow(edge) => StateModel::Arrow(edge@),
            GraphState::Dragged(id, mode) => StateModel::Dragged(*id, *mode),
            GraphState::Hovering(id) => StateModel::Hovering(*id),
            GraphState::Nothing => StateModel::Nothing,
        }
    }
}

/// What a [`GraphUI`] is, as a mathematical value.
pub struct GraphModel {
    pub cells: StoreModel,
    pub transform: Transform,
    pub state: StateModel,
    /// The events that wait to be sent.
    pub outgoing: Seq<MessageModel>,
    /// The header of the events of this participant.
    pub rq: RequestModel,
    /// Where the pointer of another participant was last seen.
    pub remote_cursor: Option<Pos2>,
}

/// The cell that an edge starts on, if its start is bound.
pub open spec fn start_cell(edge: EdgeModel) -> Option<u64> {
    match edge.start {
        EdgeVertex::Cell(id, idx) => Some(id),
        EdgeVertex::Pos(pos) => None,
    }
}

/// The edge with its end at the pointer: bound to the connection point that
/// the pointer lies over, the start cell of the edge left out, and free at
/// the pointer where there is none.
pub open spec fn followed(edge: EdgeModel, cells: StoreModel, point: Pos2) -> EdgeModel {
    match cells.snap_target(point, POINT_OVER_TOLERANCE, start_cell(edge)) {
        Some((id, idx)) => (EdgeModel { end: EdgeVertex::Cell(id, idx), ..edge }).recomputed(cells),
        None => EdgeModel {
            end: EdgeVertex::Pos(point),
            points: edge.points.update(edge.points.len() - 1, point),
            ..edge
        },
    }
}

/// The accumulated zoom factor after a frame: the factor moves by what the
/// frame's delta differs from one, and stays as it is where that would not
/// leave it positive.
pub open spec fn zoom_after(zoom_factor: i32, frame_zoom_delta: i32) -> i32 {
    let moved = sat(zoom_factor + frame_zoom_delta - UNIT);
    if moved > 0 {
        moved
    } else {
        zoom_factor
    }
}

impl GraphModel {
    pub open spec fn wf(self) -> bool {
        self.cells.wf()
    }

    /// The controller with one more event waiting to be sent.
    pub open spec fn sending(self, message: MessageModel) -> GraphModel {
        GraphModel { outgoing: self.outgoing.push(message), ..self }
    }

    /// After the pointer has moved to `point` without a button held. The move
    /// is told to the other participants. While an edge is drawn, its end
    /// follows the pointer. While nothing is dragged, the hover mark passes
    /// to the topmost cell under the pointer, a selected cell keeping its
    /// mark.
    pub open spec fn hovered(self, point: Pos2) -> GraphModel {
        let told = self.sending(MessageModel::MousePosition { rq: self.rq, position: point });
        match self.state {
            StateModel::Arrow(edge) => GraphModel {
                state: StateModel::Arrow(followed(edge, self.cells, point)),
                ..told
            },
            StateModel::Tool(cell) => told,
            StateModel::Dragged(id, mode) => told,
            _ => {
                let cleared = self.cells.updated_all(CellChange::Clear(MxCellState::Hovered));
                match cleared.top_hit(point, EPSILON) {
                    Some((id, hit)) => GraphModel {
                        cells: if cleared.cells[id].state == MxCellState::Selected {
                            cleared
                        } else {
                            cleared.updated(id, CellChange::SetState(MxCellState::Hovered))
                        },
                        state: StateModel::Hovering(id),
                        ..told
                    },
                    None => GraphModel { cells: cleared, state: StateModel::Nothing, ..told },
                }
            },
        }
    }

    /// After a click: no cell is selected but the one the pointer rests on,
    /// if it rests on one.
    pub open spec fn clicked(self) -> GraphModel {
        let cleared = self.cells.updated_all(CellChange::Clear(MxCellState::Selected));
        match self.state {
            StateModel::Hovering(id) => GraphModel {
                cells: cleared.updated(id, CellChange::SetState(MxCellState::Selected)),
                ..self
            },
            _ => GraphModel { cells: cleared, ..self },
        }
    }

    /// The cell whose text a double click opens for editing: the node that
    /// the pointer rests on.
    pub open spec fn edited(self) -> Option<u64> {
        match self.state {
            StateModel::Hovering(id) => if self.cells.cells.contains_key(id)
                && self.cells.cells[id].cell_type is Connectable {
                Some(id)
            } else {
                None
            },
            _ => None,
        }
    }

    /// After a frame has zoomed by `frame_zoom_delta`.
    pub open spec fn zoomed(self, frame_zoom_delta: i32) -> GraphModel {
        GraphModel {
            transform: Transform {
                zoom_factor: zoom_after(self.transform.zoom_factor, frame_zoom_delta),
                ..self.transform
            },
            ..self
        }
    }

    /// After a frame has scrolled by `scroll_delta`: a scroll of nothing
    /// leaves the last scroll in place.
    pub open spec fn scrolled(self, scroll_delta: Vec2) -> GraphModel {
        if scroll_delta == (Vec2 { x: 0, y: 0 }) {
            self
        } else {
            GraphModel { transform: Transform { scroll_delta, ..self.transform }, ..self }
        }
    }
}

/// The state machine that turns pointer events into changes of the diagram
/// and into outgoing events.
pub struct GraphUI {
    cells: CellStore,
    transform: Transform,
    state: GraphState,
    outgoing: Vec<WsMessages>,
    rq: RequestInfo,
    remote_cursor: Option<Pos2>,
}

impl View for GraphUI {
    type V = GraphModel;

    closed spec fn view(&self) -> GraphModel {
        GraphModel {
            cells: self.cells@,
            transform: self.transform,
            state: self.state@,
            outgoing: message_models(self.outgoing@),
            rq: self.rq@,
            remote_cursor: self.remote_cursor,
        }
    }
}

/// Moves the end of an edge to the pointer.
pub fn follow(edge: &mut UnMxEdge, cells: &CellStore, point: Pos2)
    ensures
        final(edge)@ == followed(old(edge)@, cells@, point),
{
    let skip = match edge.get_start() {
        EdgeVertex::Cell(id, idx) => Some(id),
        EdgeVertex::Pos(pos) => None,
    };
    match cells.snap_target(point, POINT_OVER_TOLERANCE, skip) {
        Some((id, idx)) => {
            edge.set_end(id, idx, cells);
        },
        None => {
            edge.set_end_pos(point);
        },
    }
}

impl GraphUI {
    /// A controller with an empty diagram, for the participant `user` of
    /// the board `board`.
    pub fn new(board: String, user: String) -> (r: GraphUI)
        ensures
            r@.wf(),
            r@ == (GraphModel {
                cells: StoreModel { cells: Map::empty(), order: Seq::empty(), next_id: 1 },
                transform: Transform { scroll_delta: Vec2 { x: 0, y: 0 }, zoom_factor: UNIT },
                state: StateModel::Nothing,
                outgoing: Seq::empty(),
                rq: RequestModel { board: board@, user: user@ },
                remote_cursor: None,
            }),
    {
        let r = GraphUI {
            cells: CellStore::new(),
            transform: Transform { scroll_delta: Vec2 { x: 0, y: 0 }, zoom_factor: UNIT },
            state: GraphState::Nothing,
            outgoing: Vec::new(),
            rq: RequestInfo { board, user },
            remote_cursor: None,
        };
        assert(r@.outgoing =~= Seq::empty());
        r
    }

    /// Whether the controller is well formed, as every controller is that
    /// was made by `new` and changed by its own methods.
    pub fn is_valid(&self) -> (r: bool)
        ensures
            r == self@.wf(),
    {
        self.cells.is_valid()
    }

    /// The cells of the diagram.
    pub fn cells(&self) -> (r: &CellStore)
        ensures
            r@ == self@.cells,
    {
        &self.cells
    }

    /// What the pointer is doing.
    pub fn state(&self) -> (r: &GraphState)
        ensures
            r@ == self@.state,
    {
        &self.state
    }

    /// The view of the canvas.
    pub fn transform(&self) -> (r: Transform)
        ensures
            r == self@.transform,
    {
        self.transform
    }

    /// Where the pointer of another participant was last seen.
    pub fn remote_cursor(&self) -> (r: Option<Pos2>)
        ensures
            r == self@.remote_cursor,
    {
        self.remote_cursor
    }

    /// Hands out the events that wait to be sent, in the order in which they
    /// arose.
    pub fn take_events(&mut self) -> (r: Vec<WsMessages>)
        ensures
            message_models(r@) == old(self)@.outgoing,
            final(self)@ == (GraphModel { outgoing: Seq::empty(), ..old(self)@ }),
    {
        let mut events: Vec<WsMessages> = Vec::new();
        std::mem::swap(&mut events, &mut self.outgoing);
        assert(self@.outgoing =~= Seq::empty());
        events
    }

    fn send(&mut self, message: WsMessages)
        ensures
            final(self)@ == old(self)@.sending(message@),
    {
        self.outgoing.push(message);
        assert(self@.outgoing =~= old(self)@.outgoing.push(message@));
    }

    /// The pointer has moved to `hover_point` without a button held.
    pub fn on_hover(&mut self, hover_point: Pos2)
        requires
            old(self)@.wf(),
        ensures
            final(self)@.wf(),
            final(self)@ == old(self)@.hovered(hover_point),
    {
        let message = WsMessages::MousePosition(MousePosition { rq: self.rq.copy(), position: hover_point });
        self.send(message);
        match &mut self.state {
            GraphState::Arrow(edge) => {
                follow(edge, &self.cells, hover_point);
            },
            GraphState::Tool(cell) => {},
            GraphState::Dragged(id, mode) => {},
            _ => {
                self.cells.update_all(CellChange::Clear(MxCellState::Hovered));
                match self.cells.top_hit(hover_point, EPSILON) {
                    Some((id, hit)) => {
                        let selected = match self.cells.get(id) {
                            Some(cell) => match cell.state {
                                MxCellState::Selected => true,
                                _ => false,
                            },
                            None => false,
                        };
                        if !selected {
                            self.cells.update(id, CellChange::SetState(MxCellState::Hovered));
                        }
                        self.state = GraphState::Hovering(id);
                    },
                    None => {
                        self.state = GraphState::Nothing;
                    },
                }
            },
        }
    }

    /// The pointer has clicked.
    pub fn on_click(&mut self)
        requires
            old(self)@.wf(),
        ensures
            final(self)@.wf(),
            final(self)@ == old(self)@.clicked(),
    {
        self.cells.update_all(CellChange::Clear(MxCellState::Selected));
        match &self.state {
            GraphState::Hovering(id) => {
                self.cells.update(*id, CellChange::SetState(MxCellState::Selected));
            },
            _ => {},
        }
    }

    /// The pointer has clicked twice. Returns the cell whose text is to be
    /// opened for editing; the diagram stays as it is.
    pub fn on_double_click(&self) -> (r: Option<u64>)
        ensures
            r == self@.edited(),
    {
        match &self.state {
            GraphState::Hovering(id) => match self.cells.get(*id) {
                Some(cell) => match &cell.cell_type {
                    CellType::Connectable(node) => Some(*id),
                    CellType::Edge(edge) => None,
                },
                None => None,
            },
            _ => None,
        }
    }

    /// A frame has zoomed by `frame_zoom_delta`, where `UNIT` is no zoom.
    pub fn zoom(&mut self, frame_zoom_delta: i32)
        ensures
            final(self)@ == old(self)@.zoomed(frame_zoom_delta),
    {
        let wide: i64 = self.transform.zoom_factor as i64 + frame_zoom_delta as i64 - UNIT as i64;
        let moved: i32 = if wide > i32::MAX as i64 {
            i32::MAX
        } else if wide < i32::MIN as i64 {
            i32::MIN
        } else {
            wide as i32
        };
        if moved > 0 {
            self.transform.zoom_factor = moved;
        }
    }

    /// A frame has scrolled by `scroll_delta`.
    pub fn scroll(&mut self, scroll_delta: Vec2)
        ensures
            final(self)@ == old(self)@.scrolled(scroll_delta),
    {
        if !(scroll_delta.x == 0 && scroll_delta.y == 0) {
            self.transform.scroll_delta = scroll_delta;
        }
    }
}

/// The fill of a newly placed figure.
pub open spec fn default_fill() -> Color32 {
    FigureBasics::spec_default().fill_color
}

/// The pen of a newly placed figure: yellow, one unit wide.
pub open spec fn default_stroke() -> Stroke {
    FigureBasics::spec_default().stroke
}

/// What a drag does that starts where a cell holds the pointer in the way
/// `hit`: a drag from a corner or a side resizes from there, any other drag
/// moves the cell.
pub open spec fn drag_mode_for(hit: Contained, point: Pos2) -> DragMode {
    match hit {
        Contained::ResizeLtoR(at) => DragMode::ResizeLtoR(at),
        Contained::ResizeRtoL(at) => DragMode::ResizeRtoL(at),
        Contained::ResizeTtoB(at) => DragMode::ResizeTtoB(at),
        Contained::ResizeBtoT(at) => DragMode::ResizeBtoT(at),
        Contained::ResizeTLtoBR(at) => DragMode::ResizeTLtoBR(at),
        Contained::ResizeBRtoTL(at) => DragMode::ResizeBRtoTL(at),
        Contained::ResizeTRtoBL(at) => DragMode::ResizeTRtoBL(at),
        Contained::ResizeBLtoTR(at) => DragMode::ResizeBLtoTR(at),
        _ => DragMode::Move(point),
    }
}

/// The rectangle after a drag in the given mode has come to `point`: each
/// mode moves the sides that it names and no other.
pub open spec fn resized(rect: Rect, mode: DragMode, point: Pos2) -> Rect {
    match mode {
        DragMode::Move(at) => rect,
        DragMode::Extend => Rect { min: rect.min, max: point },
        DragMode::ResizeLtoR(at) => Rect { min: Pos2 { x: point.x, y: rect.min.y }, max: rect.max },
        DragMode::ResizeRtoL(at) => Rect { min: rect.min, max: Pos2 { x: point.x, y: rect.max.y } },
        DragMode::ResizeTtoB(at) => Rect { min: Pos2 { x: rect.min.x, y: point.y }, max: rect.max },
        DragMode::ResizeBtoT(at) => Rect { min: rect.min, max: Pos2 { x: rect.max.x, y: point.y } },
        DragMode::ResizeTLtoBR(at) => Rect { min: point, max: rect.max },
        DragMode::ResizeBRtoTL(at) => Rect { min: rect.min, max: point },
        DragMode::ResizeTRtoBL(at) => Rect {
            min: Pos2 { x: rect.min.x, y: point.y },
            max: Pos2 { x: point.x, y: rect.max.y },
        },
        DragMode::ResizeBLtoTR(at) => Rect {
            min: Pos2 { x: point.x, y: rect.min.y },
            max: Pos2 { x: rect.max.x, y: point.y },
        },
    }
}

/// The cell that a placement drag begins with: a node whose frame is the
/// single point where the drag started, drawn for the current view.
pub open spec fn tool_cell(point: Pos2, transform: Transform) -> CellModel {
    CellModel {
        id: 0,
        cell_type: CellTypeModel::Connectable(Seq::empty()),
        shapes: seq![
            FigureModel::Rect {
                rect: Rect { min: point, max: point },
                fill: default_fill(),
                stroke: default_stroke(),
            },
        ],
        connection_points: Seq::empty(),
        state: MxCellState::Dragging,
        zoom_factor: transform.zoom_factor,
        scroll_delta: transform.scroll_delta,
    }
}

/// The node that stands for a figure placed by another participant.
pub open spec fn figure_cell(rect: Rect, text: Seq<char>, transform: Transform) -> CellModel {
    CellModel {
        id: 0,
        cell_type: CellTypeModel::Connectable(Seq::empty()),
        shapes: if text.len() == 0 {
            seq![FigureModel::Rect { rect, fill: default_fill(), stroke: default_stroke() }]
        } else {
            seq![
                FigureModel::Rect { rect, fill: default_fill(), stroke: default_stroke() },
                FigureModel::Text { content: text, position: rect.min, bounds: rect },
            ]
        },
        connection_points: rect_connection_points(rect),
        state: MxCellState::Free,
        zoom_factor: transform.zoom_factor,
        scroll_delta: transform.scroll_delta,
    }
}

/// The cell stretched so that its frame reaches to `point`.
pub open spec fn stretched(cell: CellModel, point: Pos2) -> CellModel {
    match frame_of(cell.shapes) {
        Some(rect) => cell.framed(resized(rect, DragMode::Extend, point)),
        None => cell,
    }
}

/// The store with the edge `id` noted on the node that the end is bound to.
pub open spec fn attached(cells: StoreModel, vertex: EdgeVertex, id: u64) -> StoreModel {
    match vertex {
        EdgeVertex::Cell(cell, idx) => cells.updated(cell, CellChange::Attach(id)),
        EdgeVertex::Pos(pos) => cells,
    }
}

/// The store with the edge taken in as a cell of its own, and noted on the
/// nodes that its ends are bound to. A store that has given out every
/// identifier stays as it is.
pub open spec fn committed(cells: StoreModel, edge: EdgeModel) -> StoreModel {
    if cells.next_id == u64::MAX {
        cells
    } else {
        attached(
            attached(cells.inserted(CellModel::of_edge(0, edge)), edge.start, cells.next_id),
            edge.end,
            cells.next_id,
        )
    }
}

/// The text that names an end of an edge to the other participants: the
/// digits of the cell of a bound end, nothing for a free end.
pub open spec fn vertex_text(vertex: EdgeVertex) -> Seq<char> {
    match vertex {
        EdgeVertex::Cell(id, idx) => decimal(id as nat),
        EdgeVertex::Pos(pos) => Seq::empty(),
    }
}

/// The end of an edge that a text from another participant names: bound to
/// the first connection point of the cell, if the text names one, else free
/// at the origin.
pub open spec fn remote_vertex(text: Seq<char>) -> EdgeVertex {
    match named_id(text) {
        Some(id) => EdgeVertex::Cell(id, 0),
        None => EdgeVertex::Pos(Pos2 { x: 0, y: 0 }),
    }
}

impl GraphModel {
    /// The cell that a drag from `point` takes hold of, and how: the
    /// selected cell if its shapes hold the point, else the cell the pointer
    /// rests on if its shapes hold the point.
    pub open spec fn grabbed(self, point: Pos2) -> Option<(u64, Contained)> {
        let of_selected = match self.cells.selected() {
            Some(id) => match self.cells.cells[id].body_hit(point, EPSILON) {
                Some(hit) => Some((id, hit)),
                None => None,
            },
            None => None,
        };
        let of_hovered = match self.state {
            StateModel::Hovering(id) => if self.cells.cells.contains_key(id) {
                match self.cells.cells[id].body_hit(point, EPSILON) {
                    Some(hit) => Some((id, hit)),
                    None => None,
                }
            } else {
                None
            },
            _ => None,
        };
        if of_selected is Some {
            of_selected
        } else {
            of_hovered
        }
    }

    /// The connection point of the selected node that a drag from `point`
    /// starts an edge from: the first one that the pointer lies over,
    /// strictly nearer than the tolerance.
    pub open spec fn sprouting(self, point: Pos2) -> Option<(u64, usize)> {
        match self.cells.selected() {
            Some(id) => if self.cells.cells[id].cell_type is Connectable {
                match self.cells.cells[id].connection_over(point, POINT_OVER_TOLERANCE) {
                    Some(idx) => Some((id, idx)),
                    None => None,
                }
            } else {
                None
            },
            None => None,
        }
    }

    /// After a drag has started at `point`. A drag from a connection point
    /// of the selected node draws a new edge from there. Else a drag on the
    /// selected cell, or on the cell the pointer rests on, moves or resizes
    /// that cell. Else the drag places a new cell. A drag that starts while
    /// another goes on changes nothing.
    pub open spec fn drag_started(self, point: Pos2) -> GraphModel {
        match self.state {
            StateModel::Tool(cell) => self,
            StateModel::Arrow(edge) => self,
            StateModel::Dragged(id, mode) => self,
            _ => match self.sprouting(point) {
                Some((id, idx)) => GraphModel {
                    state: StateModel::Arrow(
                        EdgeModel::between(EdgeVertex::Cell(id, idx), EdgeVertex::Pos(point)).drawn_for(
                            self.transform.zoom_factor,
                            self.transform.scroll_delta,
                        ).recomputed(self.cells),
                    ),
                    ..self
                },
                None => match self.grabbed(point) {
                    Some((id, hit)) => GraphModel {
                        cells: self.cells.updated(id, CellChange::SetState(MxCellState::Dragging)),
                        state: StateModel::Dragged(id, drag_mode_for(hit, point)),
                        ..self
                    },
                    None => GraphModel { state: StateModel::Tool(tool_cell(point, self.transform)), ..self },
                },
            },
        }
    }

    /// The cells after the drag of the cell `id` in the given mode has come
    /// to `point`: a move shifts the cell by what the pointer has moved since
    /// it last stood, a resize moves the sides of the frame; the edges are
    /// then resolved anew.
    pub open spec fn dragged_cells(self, id: u64, mode: DragMode, point: Pos2) -> StoreModel {
        match mode {
            DragMode::Move(anchor) => self.cells.updated(id, CellChange::Translate(point.delta_from(anchor))).recomputed(),
            _ => if self.cells.cells.contains_key(id) {
                match frame_of(self.cells.cells[id].shapes) {
                    Some(rect) => self.cells.updated(id, CellChange::Frame(resized(rect, mode, point))).recomputed(),
                    None => self.cells,
                }
            } else {
                self.cells
            },
        }
    }

    /// After the drag has moved to `point`.
    pub open spec fn drag_moved(self, point: Pos2) -> GraphModel {
        match self.state {
            StateModel::Arrow(edge) => GraphModel {
                state: StateModel::Arrow(followed(edge, self.cells, point)),
                ..self
            },
            StateModel::Tool(cell) => GraphModel { state: StateModel::Tool(stretched(cell, point)), ..self },
            StateModel::Dragged(id, mode) => GraphModel {
                cells: self.dragged_cells(id, mode, point),
                state: StateModel::Dragged(
                    id,
                    match mode {
                        DragMode::Move(anchor) => DragMode::Move(point),
                        _ => mode,
                    },
                ),
                ..self
            },
            _ => self,
        }
    }

    /// After the drag has been released at `point`. A drawn edge enters the
    /// store with its end where the pointer left it, bound or free, and is
    /// told to the other participants. A placed cell enters the store with
    /// its frame stretched to the pointer, and is told likewise. A moved or
    /// resized cell is left free where the pointer left it.
    pub open spec fn drag_released(self, point: Pos2) -> GraphModel {
        match self.state {
            StateModel::Arrow(edge) => {
                let last = followed(edge, self.cells, point);
                let done = GraphModel {
                    cells: committed(self.cells, last),
                    state: StateModel::Nothing,
                    ..self
                };
                if self.cells.next_id == u64::MAX {
                    done
                } else {
                    done.sending(
                        MessageModel::AddArrow {
                            rq: self.rq,
                            start_id: vertex_text(last.start),
                            end_id: vertex_text(last.end),
                        },
                    )
                }
            },
            StateModel::Tool(cell) => {
                let placed = CellModel { state: MxCellState::Free, ..stretched(cell, point) };
                if self.cells.next_id == u64::MAX {
                    GraphModel { state: StateModel::Nothing, ..self }
                } else {
                    (GraphModel { cells: self.cells.inserted(placed), state: StateModel::Nothing, ..self }).sending(
                        MessageModel::AddFigure {
                            rq: self.rq,
                            rect: match frame_of(placed.shapes) {
                                Some(rect) => rect,
                                None => Rect { min: Pos2 { x: 0, y: 0 }, max: Pos2 { x: 0, y: 0 } },
                            },
                            text: Seq::empty(),
                        },
                    )
                }
            },
            StateModel::Dragged(id, mode) => GraphModel {
                cells: self.dragged_cells(id, mode, point).updated(id, CellChange::SetState(MxCellState::Free)),
                state: StateModel::Nothing,
                ..self
            },
            _ => self,
        }
    }

    /// After the diagram has been drawn: every cell is drawn anew for the
    /// view, the edges are resolved against the cells, and what is being
    /// placed or drawn follows.
    pub open spec fn drawn(self) -> GraphModel {
        let change = CellChange::Redraw(self.transform.zoom_factor, self.transform.scroll_delta);
        let cells = self.cells.updated_all(change).recomputed();
        GraphModel {
            cells,
            state: match self.state {
                StateModel::Tool(cell) => StateModel::Tool(cell.changed(change)),
                StateModel::Arrow(edge) => StateModel::Arrow(
                    edge.transformed(self.transform.zoom_factor, self.transform.scroll_delta).recomputed(cells),
                ),
                _ => self.state,
            },
            ..self
        }
    }

    /// After an event of another participant has been taken in. A pointer
    /// move touches nothing but the mark of the other pointer. A figure and
    /// an arrow enter the store under identifiers of its own.
    pub open spec fn applied(self, message: MessageModel) -> GraphModel {
        match message {
            MessageModel::MousePosition { rq, position } => GraphModel { remote_cursor: Some(position), ..self },
            MessageModel::AddFigure { rq, rect, text } => if self.cells.next_id == u64::MAX {
                self
            } else {
                GraphModel { cells: self.cells.inserted(figure_cell(rect, text, self.transform)), ..self }
            },
            MessageModel::AddArrow { rq, start_id, end_id } => GraphModel {
                cells: committed(
                    self.cells,
                    EdgeModel::between(remote_vertex(start_id), remote_vertex(end_id)).drawn_for(
                        self.transform.zoom_factor,
                        self.transform.scroll_delta,
                    ).recomputed(self.cells),
                ),
                ..self
            },
        }
    }

    /// After the first `count` events of a batch have been taken in, in
    /// their order.
    pub open spec fn applied_all(self, batch: Seq<MessageModel>, count: int) -> GraphModel
        decreases count,
    {
        if count <= 0 || count > batch.len() {
            self
        } else {
            self.applied_all(batch, count - 1).applied(batch[count - 1])
        }
    }
}

/// What a drag does that starts where a cell holds the pointer in the way
/// `hit`.
pub fn drag_mode_of(hit: Contained, point: Pos2) -> (r: DragMode)
    ensures
        r == drag_mode_for(hit, point),
{
    match hit {
        Contained::ResizeLtoR(at) => DragMode::ResizeLtoR(at),
        Contained::ResizeRtoL(at) => DragMode::ResizeRtoL(at),
        Contained::ResizeTtoB(at) => DragMode::ResizeTtoB(at),
        Contained::ResizeBtoT(at) => DragMode::ResizeBtoT(at),
        Contained::ResizeTLtoBR(at) => DragMode::ResizeTLtoBR(at),
        Contained::ResizeBRtoTL(at) => DragMode::ResizeBRtoTL(at),
        Contained::ResizeTRtoBL(at) => DragMode::ResizeTRtoBL(at),
        Contained::ResizeBLtoTR(at) => DragMode::ResizeBLtoTR(at),
        _ => DragMode::Move(point),
    }
}

/// The rectangle after a drag in the given mode has come to `point`.
pub fn resize(rect: Rect, mode: DragMode, point: Pos2) -> (r: Rect)
    ensures
        r == resized(rect, mode, point),
{
    let mut out = rect;
    match mode {
        DragMode::Move(at) => {},
        DragMode::Extend => {
            out.set_bottom(point.y);
            out.set_right(point.x);
        },
        DragMode::ResizeLtoR(at) => {
            out.set_left(point.x);
        },
        DragMode::ResizeRtoL(at) => {
            out.set_right(point.x);
        },
        DragMode::ResizeTtoB(at) => {
            out.set_top(point.y);
        },
        DragMode::ResizeBtoT(at) => {
            out.set_bottom(point.y);
        },
        DragMode::ResizeTLtoBR(at) => {
            out.set_left(point.x);
            out.set_top(point.y);
        },
        DragMode::ResizeBRtoTL(at) => {
            out.set_right(point.x);
            out.set_bottom(point.y);
        },
        DragMode::ResizeTRtoBL(at) => {
            out.set_right(point.x);
            out.set_top(point.y);
        },
        DragMode::ResizeBLtoTR(at) => {
            out.set_left(point.x);
            out.set_bottom(point.y);
        },
    }
    out
}

/// Stretches the cell so that its frame reaches to `point`.
pub fn stretch(cell: &mut MxCell, point: Pos2)
    ensures
        final(cell)@ == stretched(old(cell)@, point),
{
    match cell.frame() {
        Some(rect) => {
            cell.set_frame(resize(rect, DragMode::Extend, point));
        },
        None => {},
    }
}

fn attach(cells: &mut CellStore, vertex: EdgeVertex, id: u64)
    requires
        old(cells)@.wf(),
    ensures
        final(cells)@.wf(),
        final(cells)@ == attached(old(cells)@, vertex, id),
{
    match vertex {
        EdgeVertex::Cell(cell, idx) => {
            cells.update(cell, CellChange::Attach(id));
        },
        EdgeVertex::Pos(pos) => {},
    }
}

/// Takes the edge into the store as a cell of its own and notes it on the
/// nodes that its ends are bound to. Returns the identifier of the edge.
pub fn commit(cells: &mut CellStore, edge: UnMxEdge) -> (r: Option<u64>)
    requires
        old(cells)@.wf(),
    ensures
        final(cells)@.wf(),
        final(cells)@ == committed(old(cells)@, edge@),
        match r {
            Some(id) => id == old(cells)@.next_id && id < u64::MAX,
            None => old(cells)@.next_id == u64::MAX,
        },
{
    let start = edge.get_start();
    let end = edge.get_end();
    match cells.insert(MxCell::with_edge(0, edge)) {
        Some(id) => {
            attach(cells, start, id);
            attach(cells, end, id);
            Some(id)
        },
        None => None,
    }
}

fn text_of(vertex: EdgeVertex) -> (r: String)
    ensures
        r@ == vertex_text(vertex),
{
    match vertex {
        EdgeVertex::Cell(id, idx) => id_text(id),
        EdgeVertex::Pos(pos) => String::new(),
    }
}

fn vertex_of(text: &String) -> (r: EdgeVertex)
    ensures
        r == remote_vertex(text@),
{
    match parse_id(text.as_str()) {
        Some(id) => EdgeVertex::Cell(id, 0),
        None => EdgeVertex::Pos(Pos2 { x: 0, y: 0 }),
    }
}

fn new_tool(point: Pos2, transform: Transform) -> (r: MxCell)
    ensures
        r@ == tool_cell(point, transform),
{
    let basics = FigureBasics::default();
    let mut shapes: Vec<Figure> = Vec::new();
    shapes.push(
        Figure::Rect { rect: Rect { min: point, max: point }, fill: basics.fill_color, stroke: basics.stroke },
    );
    let r = MxCell {
        id: 0,
        cell_type: CellType::Connectable(MxConnectable { edges: Vec::new() }),
        shapes,
        connection_points: Vec::new(),
        state: MxCellState::Dragging,
        zoom_factor: transform.zoom_factor,
        scroll_delta: transform.scroll_delta,
    };
    assert(r@.shapes =~= tool_cell(point, transform).shapes);
    assert(r@.connection_points =~= Seq::empty());
    assert(r@.cell_type->Connectable_0 =~= Seq::empty());
    r
}

fn new_figure(rect: Rect, text: &String, transform: Transform) -> (r: MxCell)
    ensures
        r@ == figure_cell(rect, text@, transform),
{
    let basics = FigureBasics::default();
    let mut shapes: Vec<Figure> = Vec::new();
    shapes.push(Figure::Rect { rect, fill: basics.fill_color, stroke: basics.stroke });
    if !text.as_str().is_empty() {
        shapes.push(Figure::Text { content: text.clone(), position: rect.min, bounds: rect });
    }
    let r = MxCell {
        id: 0,
        cell_type: CellType::Connectable(MxConnectable { edges: Vec::new() }),
        shapes,
        connection_points: crate::cell::connection_points_of(rect),
        state: MxCellState::Free,
        zoom_factor: transform.zoom_factor,
        scroll_delta: transform.scroll_delta,
    };
    assert(r@.shapes =~= figure_cell(rect, text@, transform).shapes);
    assert(r@.cell_type->Connectable_0 =~= Seq::empty());
    r
}

impl GraphUI {
    /// A drag has started at `point`.
    pub fn on_drag_start(&mut self, point: Pos2)
        requires
            old(self)@.wf(),
        ensures
            final(self)@.wf(),
            final(self)@ == old(self)@.drag_started(point),
    {
        let hovered = match &self.state {
            GraphState::Tool(cell) => {
                return ;
            },
            GraphState::Arrow(edge) => {
                return ;
            },
            GraphState::Dragged(id, mode) => {
                return ;
            },
            GraphState::Hovering(id) => Some(*id),
            GraphState::Nothing => None,
        };
        let selected = self.cells.selected();
        let sprout = match selected {
            Some(id) => match self.cells.get(id) {
                Some(cell) => match &cell.cell_type {
                    CellType::Connectable(node) => match cell.find_cp_over(point, POINT_OVER_TOLERANCE) {
                        Some(idx) => Some((id, idx)),
                        None => None,
                    },
                    CellType::Edge(edge) => None,
                },
                None => None,
            },
            None => None,
        };
        proof {
            lemma_selected_lives(self.cells@, self.cells@.order.len() as int);
        }
        if let Some((id, idx)) = sprout {
            let mut edge = UnMxEdge::from_vertices(EdgeVertex::Cell(id, idx), EdgeVertex::Pos(point));
            edge.set_drawn(self.transform.zoom_factor, self.transform.scroll_delta);
            edge.compute_points(&self.cells);
            self.state = GraphState::Arrow(edge);
            return ;
        }
        let of_selected = match selected {
            Some(id) => match self.cells.get(id) {
                Some(cell) => match cell.hit_shapes(point, EPSILON) {
                    Some(hit) => Some((id, hit)),
                    None => None,
                },
                None => None,
            },
            None => None,
        };
        let of_hovered = match hovered {
            Some(id) => match self.cells.get(id) {
                Some(cell) => match cell.hit_shapes(point, EPSILON) {
                    Some(hit) => Some((id, hit)),
                    None => None,
                },
                None => None,
            },
            None => None,
        };
        let grab = if of_selected.is_some() {
            of_selected
        } else {
            of_hovered
        };
        match grab {
            Some((id, hit)) => {
                self.cells.update(id, CellChange::SetState(MxCellState::Dragging));
                self.state = GraphState::Dragged(id, drag_mode_of(hit, point));
            },
            None => {
                self.state = GraphState::Tool(new_tool(point, self.transform));
            },
        }
    }

    fn drag_cell(&mut self, id: u64, mode: DragMode, point: Pos2)
        requires
            old(self)@.wf(),
        ensures
            final(self)@.wf(),
            final(self)@ == (GraphModel { cells: old(self)@.dragged_cells(id, mode, point), ..old(self)@ }),
    {
        match mode {
            DragMode::Move(anchor) => {
                self.cells.update(id, CellChange::Translate(point.minus(anchor)));
                self.cells.recompute_edges();
            },
            _ => {
                let frame = match self.cells.get(id) {
                    Some(cell) => cell.frame(),
                    None => None,
                };
                match frame {
                    Some(rect) => {
                        self.cells.update(id, CellChange::Frame(resize(rect, mode, point)));
                        self.cells.recompute_edges();
                    },
                    None => {},
                }
            },
        }
    }

    /// The drag has moved to `point`.
    pub fn on_drag_move(&mut self, point: Pos2)
        requires
            old(self)@.wf(),
        ensures
            final(self)@.wf(),
            final(self)@ == old(self)@.drag_moved(point),
    {
        let dragged = match &mut self.state {
            GraphState::Arrow(edge) => {
                follow(edge, &self.cells, point);
                None
            },
            GraphState::Tool(cell) => {
                stretch(cell, point);
                None
            },
            GraphState::Dragged(id, mode) => Some((*id, *mode)),
            _ => None,
        };
        if let Some((id, mode)) = dragged {
            self.drag_cell(id, mode, point);
            let next = match mode {
                DragMode::Move(anchor) => DragMode::Move(point),
                _ => mode,
            };
            self.state = GraphState::Dragged(id, next);
        }
    }

    /// The drag has been released at `point`.
    pub fn on_drag_release(&mut self, point: Pos2)
        requires
            old(self)@.wf(),
        ensures
            final(self)@.wf(),
            final(self)@ == old(self)@.drag_released(point),
    {
        let mut state = GraphState::Nothing;
        match &self.state {
            GraphState::Arrow(edge) => {},
            GraphState::Tool(cell) => {},
            GraphState::Dragged(id, mode) => {},
            _ => {
                return ;
            },
        }
        std::mem::swap(&mut state, &mut self.state);
        match state {
            GraphState::Arrow(edge) => {
                let mut edge = edge;
                follow(&mut edge, &self.cells, point);
                let start = edge.get_start();
                let end = edge.get_end();
                match commit(&mut self.cells, edge) {
                    Some(id) => {
                        let message = WsMessages::AddArrow(
                            AddArrow { rq: self.rq.copy(), start_id: text_of(start), end_id: text_of(end) },
                        );
                        self.send(message);
                    },
                    None => {},
                }
            },
            GraphState::Tool(cell) => {
                let mut cell = cell;
                stretch(&mut cell, point);
                cell.set_state(MxCellState::Free);
                let rect = match cell.frame() {
                    Some(rect) => rect,
                    None => Rect { min: Pos2 { x: 0, y: 0 }, max: Pos2 { x: 0, y: 0 } },
                };
                match self.cells.insert(cell) {
                    Some(id) => {
                        let message = WsMessages::AddFigure(
                            AddFigure { rq: self.rq.copy(), rect, text: String::new() },
                        );
                        self.send(message);
                    },
                    None => {},
                }
            },
            GraphState::Dragged(id, mode) => {
                self.drag_cell(id, mode, point);
                self.cells.update(id, CellChange::SetState(MxCellState::Free));
            },
            _ => {},
        }
    }

    /// Draws the diagram anew for the view of the canvas.
    pub fn draw(&mut self)
        requires
            old(self)@.wf(),
        ensures
            final(self)@.wf(),
            final(self)@ == old(self)@.drawn(),
    {
        let change = CellChange::Redraw(self.transform.zoom_factor, self.transform.scroll_delta);
        self.cells.update_all(change);
        self.cells.recompute_edges();
        match &mut self.state {
            GraphState::Tool(cell) => {
                cell.apply(change);
            },
            GraphState::Arrow(edge) => {
                edge.draw_transform(self.transform.zoom_factor, self.transform.scroll_delta);
                edge.compute_points(&self.cells);
            },
            _ => {},
        }
    }

    fn apply(&mut self, message: &WsMessages)
        requires
            old(self)@.wf(),
        ensures
            final(self)@.wf(),
            final(self)@ == old(self)@.applied(message@),
    {
        match message {
            WsMessages::MousePosition(moved) => {
                self.remote_cursor = Some(moved.position);
            },
            WsMessages::AddFigure(figure) => {
                let cell = new_figure(figure.rect, &figure.text, self.transform);
                self.cells.insert(cell);
            },
            WsMessages::AddArrow(arrow) => {
                let mut edge = UnMxEdge::from_vertices(vertex_of(&arrow.start_id), vertex_of(&arrow.end_id));
                edge.set_drawn(self.transform.zoom_factor, self.transform.scroll_delta);
                edge.compute_points(&self.cells);
                commit(&mut self.cells, edge);
            },
        }
    }

    /// Takes in a batch of events of other participants, in their order.
    pub fn apply_remote(&mut self, batch: &Vec<WsMessages>)
        requires
            old(self)@.wf(),
        ensures
            final(self)@.wf(),
            final(self)@ == old(self)@.applied_all(message_models(batch@), batch@.len() as int),
    {
        let mut idx: usize = 0;
        while idx < batch.len()
            invariant
                idx <= batch.len(),
                self@.wf(),
                self@ == old(self)@.applied_all(message_models(batch@), idx as int),
            decreases batch.len() - idx,
        {
            self.apply(&batch[idx]);
            idx += 1;
        }
    }
}

/// After a click at most one cell is selected: the cell that the pointer
/// rests on, if it is one of the cells, and none otherwise.
pub proof fn lemma_click_selects_one(graph: GraphModel)
    requires
        graph.wf(),
    ensures
        forall|id: u64| #[trigger]
            graph.clicked().cells.cells.contains_key(id) && graph.clicked().cells.cells[id].state
                == MxCellState::Selected ==> graph.state == StateModel::Hovering(id),
        forall|id: u64|
            graph.state == StateModel::Hovering(id) && #[trigger] graph.cells.cells.contains_key(id)
                ==> graph.clicked().cells.cells[id].state == MxCellState::Selected,
{
}

/// An edge that is drawn from a connection point of a cell and released
/// where the pointer lies over no connection point is kept: the store gains
/// the edge as its topmost cell, with its start bound as it was and its end
/// free at the pointer. The cell that the edge starts on notes the edge; every
/// other cell stays as it is. The edge is told to the other participants. A
/// store that has given out every identifier can take no edge.
pub proof fn lemma_edge_released_over_nothing(graph: GraphModel, point: Pos2)
    requires
        graph.wf(),
        graph.state matches StateModel::Arrow(edge) && edge.wf() && edge.start is Cell,
        graph.cells.snap_target(point, POINT_OVER_TOLERANCE, start_cell(graph.state->Arrow_0)) is None,
        graph.cells.next_id < u64::MAX,
    ensures
        ({
            let edge = graph.state->Arrow_0;
            let after = graph.drag_released(point);
            let id = graph.cells.next_id;
            &&& after.state == StateModel::Nothing
            &&& after.cells.wf()
            &&& after.cells.order == graph.cells.order.push(id)
            &&& forall|k: u64|
                after.cells.cells.contains_key(k) <==> graph.cells.cells.contains_key(k) || k == id
            &&& after.cells.cells[id].cell_type matches CellTypeModel::Edge(kept) && kept.start == edge.start
                && kept.end == EdgeVertex::Pos(point) && kept.points.len() == edge.points.len()
                && kept.points.last() == point
            &&& forall|k: u64| #[trigger]
                graph.cells.cells.contains_key(k) ==> after.cells.cells[k] == if start_cell(edge) == Some(k) {
                    graph.cells.cells[k].changed(CellChange::Attach(id))
                } else {
                    graph.cells.cells[k]
                }
            &&& after.outgoing == graph.outgoing.push(
                MessageModel::AddArrow {
                    rq: graph.rq,
                    start_id: vertex_text(edge.start),
                    end_id: Seq::empty(),
                },
            )
        }),
{
    let edge = graph.state->Arrow_0;
    let id = graph.cells.next_id;
    let last = followed(edge, graph.cells, point);
    let taken = graph.cells.inserted(CellModel::of_edge(0, last));
    let after = graph.drag_released(point);
    assert(!graph.cells.cells.contains_key(id));
    assert(!graph.cells.order.contains(id));
    assert(taken.order.no_duplicates());
    assert forall|k: u64| taken.cells.contains_key(k) <==> taken.order.contains(k) by {
        if graph.cells.order.contains(k) {
            let i = graph.cells.order.index_of(k);
            assert(taken.order[i] == k);
        }
        assert(taken.order[taken.order.len() - 1] == id);
    }
    assert(taken.wf());
    assert(after.cells == attached(taken, last.start, id));
    assert forall|k: u64|
        after.cells.cells.contains_key(k) <==> after.cells.order.contains(k) by {
        assert(taken.cells.contains_key(k) <==> taken.order.contains(k));
    }
}

/// A cell that is placed by a drag from one point to another enters the
/// store as its topmost cell: a free node whose frame runs from the first
/// point to the second, with the connection points of that frame, twelve of
/// them where the frame has an area. Every other cell stays as it is. A store
/// that has given out every identifier can take no cell.
pub proof fn lemma_placed_by_drag(graph: GraphModel, from: Pos2, to: Pos2)
    requires
        graph.wf(),
        graph.state == StateModel::Tool(tool_cell(from, graph.transform)),
        graph.cells.next_id < u64::MAX,
    ensures
        ({
            let after = graph.drag_released(to);
            let id = graph.cells.next_id;
            let frame = Rect { min: from, max: to };
            &&& after.state == StateModel::Nothing
            &&& after.cells.order == graph.cells.order.push(id)
            &&& forall|k: u64|
                after.cells.cells.contains_key(k) <==> graph.cells.cells.contains_key(k) || k == id
            &&& after.cells.cells[id].id == id
            &&& after.cells.cells[id].cell_type is Connectable
            &&& after.cells.cells[id].state == MxCellState::Free
            &&& frame_of(after.cells.cells[id].shapes) == Some(frame)
            &&& after.cells.cells[id].connection_points == rect_connection_points(frame)
            &&& frame.spec_has_area() ==> after.cells.cells[id].connection_points.len() == 12
            &&& forall|k: u64| #[trigger]
                graph.cells.cells.contains_key(k) ==> after.cells.cells[k] == graph.cells.cells[k]
            &&& after.outgoing == graph.outgoing.push(
                MessageModel::AddFigure { rq: graph.rq, rect: frame, text: Seq::empty() },
            )
        }),
{
    let tool = tool_cell(from, graph.transform);
    let frame = Rect { min: from, max: to };
    assert(crate::cell::frame_index(tool.shapes, 0) == Some(0int));
    let placed = stretched(tool, to);
    assert(placed.shapes =~= seq![
        FigureModel::Rect { rect: frame, fill: default_fill(), stroke: default_stroke() },
    ]);
    assert(crate::cell::frame_index(placed.shapes, 0) == Some(0int));
    assert(!graph.cells.cells.contains_key(graph.cells.next_id));
}

} // verus!
