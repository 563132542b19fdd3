//! Scene model and geometric interaction engine of a two-dimensional diagram
//! editor, on an exact fixed-point coordinate grid.

pub mod algo;
pub mod cell;
pub mod edge;
pub mod errors;
pub mod figure;
pub mod geometry;
pub mod graph;
pub mod line;
pub mod messages;
pub mod shapes;
pub mod store;
pub mod text;

pub use algo::PointAlgoritm;
pub use cell::{CellChange, CellType, MxCell, MxCellState, MxConnectable};
pub use edge::{EdgeVertex, UnMxEdge};
pub use errors::MxErrors;
pub use figure::{Color32, Contained, Figure, Stroke};
pub use geometry::{PointMath, Pos2, Rect, Vec2, Zoom, UNIT};
pub use graph::{GraphState, GraphUI, Transform};
pub use line::TwoPosLine;
pub use messages::{AddArrow, AddFigure, MousePosition, Outbox, RequestInfo, WsMessages};
pub use shapes::{DragMode, FigureBasics, Shadow, ShadowPlace};
pub use store::CellStore;
