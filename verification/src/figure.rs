//! The drawable shapes of a cell and how a point lies in them.

use vstd::prelude::*;
use crate::algo::{belongs_to_path, belongs_to_segment, on_segment, PointAlgoritm};
use crate::geometry::{lemma_rescale_same, PointMath, Pos2, Rect, Vec2, UNIT};

verus! {

/// A colour as red, green, blue and opacity.
#[derive(Clone, Copy, Debug, PartialEq, Eq, Structural)]
pub struct Color32 {
    pub r: u8,
    pub g: u8,
    pub b: u8,
    pub a: u8,
}

/// The pen a shape's outline is drawn with. The width is in grid steps.
#[derive(Clone, Copy, Debug, PartialEq, Eq, Structural)]
pub struct Stroke {
    pub width: i32,
    pub color: Color32,
}

/// How a point lies in a shape, which decides what a drag from that point
/// does.
#[derive(Clone, Copy, Debug, PartialEq, Eq, Structural)]
pub enum Contained {
    /// In area
    InArea,
    /// In connection point
    ConnectionPoint(usize),
    /// Left to Right
    ResizeLtoR(Pos2),
    /// Right to Left
    ResizeRtoL(Pos2),
    /// Top to Bottom
    ResizeTtoB(Pos2),
    /// Bottom to Top
    ResizeBtoT(Pos2),
    /// TopLeft to BottomRight
    ResizeTLtoBR(Pos2),
    /// BottomRight to TopLeft
    ResizeBRtoTL(Pos2),
    /// TopRight to BottomLeft
    ResizeTRtoBL(Pos2),
    /// BottomLeft to TopRight
    ResizeBLtoTR(Pos2),
}

/// A drawable shape.
#[derive(Debug)]
#[allow(inconsistent_fields)]
pub enum Figure {
    /// A group of shapes.
    Composite(Vec<Figure>),
    LineSegment { points: [Pos2; 2], stroke: Stroke },
    Path { points: Vec<Pos2>, stroke: Stroke },
    Rect { rect: Rect, fill: Color32, stroke: Stroke },
    Text { content: String, position: Pos2, bounds: Rect },
    Mesh { vertices: Vec<Pos2> },
    QuadraticBezier { points: [Pos2; 3] },
    CubicBezier { points: [Pos2; 4] },
}

/// What a [`Figure`] is, as a mathematical value.
#[allow(inconsistent_fields)]
pub enum FigureModel {
    Composite(Seq<FigureModel>),
    LineSegment { points: Seq<Pos2>, stroke: Stroke },
    Path { points: Seq<Pos2>, stroke: Stroke },
    Rect { rect: Rect, fill: Color32, stroke: Stroke },
    Text { content: Seq<char>, position: Pos2, bounds: Rect },
    Mesh { vertices: Seq<Pos2> },
    QuadraticBezier { points: Seq<Pos2> },
    CubicBezier { points: Seq<Pos2> },
}

/// The points of `points`, each moved by `delta`.
pub open spec fn translated_points(points: Seq<Pos2>, delta: Vec2) -> Seq<Pos2> {
    Seq::new(points.len(), |i: int| points[i].translated(delta))
}

/// The points of `points`, each scaled about the origin by `num / den`.
pub open spec fn scaled_points(points: Seq<Pos2>, num: i32, den: i32) -> Seq<Pos2> {
    Seq::new(points.len(), |i: int| points[i].scaled(num, den))
}

/// The least index from `from` on at which `points` holds a point within
/// `epsilon` of `point`.
pub open spec fn first_within(points: Seq<Pos2>, from: int, point: Pos2, epsilon: u32) -> Option<int>
    decreases points.len() - from,
{
    if from < 0 || from >= points.len() {
        None
    } else if point.spec_within(points[from], epsilon) {
        Some(from)
    } else {
        first_within(points, from + 1, point, epsilon)
    }
}

/// The least index from `from` on at which `points` holds a point strictly
/// nearer than `tolerance` to `point`.
pub open spec fn first_over(points: Seq<Pos2>, from: int, point: Pos2, tolerance: u32) -> Option<int>
    decreases points.len() - from,
{
    if from < 0 || from >= points.len() {
        None
    } else if point.spec_over(points[from], tolerance) {
        Some(from)
    } else {
        first_over(points, from + 1, point, tolerance)
    }
}

/// The answer of the last shape of `shapes`, below index `upto`, that holds
/// `point`.
pub open spec fn last_hit(shapes: Seq<FigureModel>, upto: int, point: Pos2, epsilon: u32) -> Option<
    Contained,
>
    decreases upto,
{
    if upto <= 0 || upto > shapes.len() {
        None
    } else {
        match shapes[upto - 1].containment(point, epsilon) {
            Some(hit) => Some(hit),
            None => last_hit(shapes, upto - 1, point, epsilon),
        }
    }
}

/// The models of a list of shapes.
pub open spec fn shape_models(shapes: Seq<Figure>) -> Seq<FigureModel> {
    Seq::new(shapes.len(), |i: int| shapes[i]@)
}

/// The index of the first point of `points` within `epsilon` of `point`.
pub fn find_within(points: &Vec<Pos2>, point: Pos2, epsilon: u32) -> (r: Option<usize>)
    ensures
        match r {
            Some(idx) => first_within(points@, 0, point, epsilon) == Some(idx as int),
            None => first_within(points@, 0, point, epsilon) is None,
        },
{
    let mut idx: usize = 0;
    while idx < points.len()
        invariant
            idx <= points.len(),
            first_within(points@, 0, point, epsilon) == first_within(points@, idx as int, point, epsilon),
        decreases points.len() - idx,
    {
        if point.within(points[idx], epsilon) {
            return Some(idx);
        }
        idx += 1;
    }
    None
}

/// The index of the first point of `points` strictly nearer than `tolerance`
/// to `point`.
pub fn find_over(points: &Vec<Pos2>, point: Pos2, tolerance: u32) -> (r: Option<usize>)
    ensures
        match r {
            Some(idx) => first_over(points@, 0, point, tolerance) == Some(idx as int),
            None => first_over(points@, 0, point, tolerance) is None,
        },
{
    let mut idx: usize = 0;
    while idx < points.len()
        invariant
            idx <= points.len(),
            first_over(points@, 0, point, tolerance) == first_over(points@, idx as int, point, tolerance),
        decreases points.len() - idx,
    {
        if point.over(points[idx], tolerance) {
            return Some(idx);
        }
        idx += 1;
    }
    None
}

/// How `point` lies in `rect`: not at all in a rectangle without area, and
/// not at all outside the rectangle; inside it, the corner within `epsilon`
/// (right top, left top, left bottom, right bottom, the first that applies),
/// else the side that the point belongs to within `epsilon` (right, left,
/// top, bottom, the first that applies), else the area.
pub open spec fn classify_in_rectangle(rect: Rect, point: Pos2, epsilon: u32) -> Option<Contained> {
    if !rect.spec_has_area() {
        None
    } else if !rect.spec_contains(point) {
        None
    } else if point.spec_within(rect.spec_right_top(), epsilon) {
        Some(Contained::ResizeTRtoBL(point))
    } else if point.spec_within(rect.spec_left_top(), epsilon) {
        Some(Contained::ResizeTLtoBR(point))
    } else if point.spec_within(rect.spec_left_bottom(), epsilon) {
        Some(Contained::ResizeBLtoTR(point))
    } else if point.spec_within(rect.spec_right_bottom(), epsilon) {
        Some(Contained::ResizeBRtoTL(point))
    } else if belongs_to_segment(point, rect.spec_right_top(), rect.spec_right_bottom(), epsilon) {
        Some(Contained::ResizeRtoL(point))
    } else if belongs_to_segment(point, rect.spec_left_top(), rect.spec_left_bottom(), epsilon) {
        Some(Contained::ResizeLtoR(point))
    } else if belongs_to_segment(point, rect.spec_left_top(), rect.spec_right_top(), epsilon) {
        Some(Contained::ResizeTtoB(point))
    } else if belongs_to_segment(point, rect.spec_left_bottom(), rect.spec_right_bottom(), epsilon) {
        Some(Contained::ResizeBtoT(point))
    } else {
        Some(Contained::InArea)
    }
}

impl FigureModel {
    /// The shape moved by `delta`.
    pub open spec fn translated(self, delta: Vec2) -> FigureModel
        decreases self,
    {
        match self {
            FigureModel::Composite(shapes) => FigureModel::Composite(
                Seq::new(
                    shapes.len(),
                    |i: int|
                        if 0 <= i < shapes.len() {
                            shapes[i].translated(delta)
                        } else {
                            arbitrary()
                        },
                ),
            ),
            FigureModel::LineSegment { points, stroke } => FigureModel::LineSegment {
                points: translated_points(points, delta),
                stroke,
            },
            FigureModel::Path { points, stroke } => FigureModel::Path {
                points: translated_points(points, delta),
                stroke,
            },
            FigureModel::Rect { rect, fill, stroke } => FigureModel::Rect {
                rect: rect.translated(delta),
                fill,
                stroke,
            },
            FigureModel::Text { content, position, bounds } => FigureModel::Text {
                content,
                position: position.translated(delta),
                bounds: bounds.translated(delta),
            },
            FigureModel::Mesh { vertices } => FigureModel::Mesh {
                vertices: translated_points(vertices, delta),
            },
            FigureModel::QuadraticBezier { points } => FigureModel::QuadraticBezier {
                points: translated_points(points, delta),
            },
            FigureModel::CubicBezier { points } => FigureModel::CubicBezier {
                points: translated_points(points, delta),
            },
        }
    }

    /// The shape with every coordinate scaled about the origin by `num / den`.
    pub open spec fn scaled(self, num: i32, den: i32) -> FigureModel
        decreases self,
    {
        match self {
            FigureModel::Composite(shapes) => FigureModel::Composite(
                Seq::new(
                    shapes.len(),
                    |i: int|
                        if 0 <= i < shapes.len() {
                            shapes[i].scaled(num, den)
                        } else {
                            arbitrary()
                        },
                ),
            ),
            FigureModel::LineSegment { points, stroke } => FigureModel::LineSegment {
                points: scaled_points(points, num, den),
                stroke,
            },
            FigureModel::Path { points, stroke } => FigureModel::Path {
                points: scaled_points(points, num, den),
                stroke,
            },
            FigureModel::Rect { rect, fill, stroke } => FigureModel::Rect {
                rect: rect.scaled(num, den),
                fill,
                stroke,
            },
            FigureModel::Text { content, position, bounds } => FigureModel::Text {
                content,
                position: position.scaled(num, den),
                bounds: bounds.scaled(num, den),
            },
            FigureModel::Mesh { vertices } => FigureModel::Mesh {
                vertices: scaled_points(vertices, num, den),
            },
            FigureModel::QuadraticBezier { points } => FigureModel::QuadraticBezier {
                points: scaled_points(points, num, den),
            },
            FigureModel::CubicBezier { points } => FigureModel::CubicBezier {
                points: scaled_points(points, num, den),
            },
        }
    }

    /// The shape with every coordinate scaled about the origin by
    /// `zoom_factor / UNIT`.
    pub open spec fn zoomed(self, zoom_factor: i32) -> FigureModel {
        self.scaled(zoom_factor, UNIT)
    }

    /// How `point` lies in the shape within `epsilon`. A group answers with
    /// its first member that holds the point; a line and a path hold the
    /// points that belong to them; a rectangle and a text classify the point
    /// in their frame; a mesh and a curve hold no point.
    pub open spec fn containment(self, point: Pos2, epsilon: u32) -> Option<Contained>
        decreases self, 0nat,
    {
        match self {
            FigureModel::Composite(shapes) => first_hit(shapes, 0, point, epsilon),
            FigureModel::LineSegment { points, .. } => if belongs_to_segment(
                point,
                points[0],
                points[1],
                epsilon,
            ) {
                Some(Contained::InArea)
            } else {
                None
            },
            FigureModel::Path { points, .. } => if belongs_to_path(point, points, epsilon) {
                Some(Contained::InArea)
            } else {
                None
            },
            FigureModel::Rect { rect, .. } => classify_in_rectangle(rect, point, epsilon),
            FigureModel::Text { bounds, .. } => classify_in_rectangle(bounds, point, epsilon),
            _ => None,
        }
    }
}

/// The answer of the first shape of `shapes`, from index `from` on, that holds
/// `point`.
pub open spec fn first_hit(shapes: Seq<FigureModel>, from: int, point: Pos2, epsilon: u32) -> Option<
    Contained,
>
    decreases shapes, shapes.len() - from,
{
    if from < 0 || from >= shapes.len() {
        None
    } else {
        match shapes[from].containment(point, epsilon) {
            Some(hit) => Some(hit),
            None => first_hit(shapes, from + 1, point, epsilon),
        }
    }
}

impl View for Figure {
    type V = FigureModel;

    open spec fn view(&self) -> FigureModel {
        self.model()
    }
}

impl Figure {
    /// The shape as a mathematical value.
    pub open spec fn model(&self) -> FigureModel
        decreases self,
    {
        match self {
            Figure::Composite(shapes) => FigureModel::Composite(
                Seq::new(
                    shapes.len() as nat,
                    |i: int|
                        if 0 <= i < shapes.len() {
                            shapes[i].model()
                        } else {
                            arbitrary()
                        },
                ),
            ),
            Figure::LineSegment { points, stroke } => FigureModel::LineSegment {
                points: points@,
                stroke: *stroke,
            },
            Figure::Path { points, stroke } => FigureModel::Path { points: points@, stroke: *stroke },
            Figure::Rect { rect, fill, stroke } => FigureModel::Rect {
                rect: *rect,
                fill: *fill,
                stroke: *stroke,
            },
            Figure::Text { content, position, bounds } => FigureModel::Text {
                content: content@,
                position: *position,
                bounds: *bounds,
            },
            Figure::Mesh { vertices } => FigureModel::Mesh { vertices: vertices@ },
            Figure::QuadraticBezier { points } => FigureModel::QuadraticBezier { points: points@ },
            Figure::CubicBezier { points } => FigureModel::CubicBezier { points: points@ },
        }
    }
}

/// Moves every point of `points` by `delta`.
pub fn translate_points(points: &mut Vec<Pos2>, delta: Vec2)
    ensures
        final(points)@ == translated_points(old(points)@, delta),
{
    let mut idx: usize = 0;
    while idx < points.len()
        invariant
            idx <= points.len(),
            points.len() == old(points).len(),
            forall|i: int| 0 <= i < idx ==> points@[i] == old(points)@[i].translated(delta),
            forall|i: int| idx <= i < points.len() ==> points@[i] == old(points)@[i],
        decreases points.len() - idx,
    {
        let moved = points[idx].translate(delta);
        points[idx] = moved;
        idx += 1;
    }
    assert(points@ =~= translated_points(old(points)@, delta));
}

/// Scales every point of `points` about the origin by `num / den`.
pub fn scale_points(points: &mut Vec<Pos2>, num: i32, den: i32)
    ensures
        final(points)@ == scaled_points(old(points)@, num, den),
{
    let mut idx: usize = 0;
    while idx < points.len()
        invariant
            idx <= points.len(),
            points.len() == old(points).len(),
            forall|i: int| 0 <= i < idx ==> points@[i] == old(points)@[i].scaled(num, den),
            forall|i: int| idx <= i < points.len() ==> points@[i] == old(points)@[i],
        decreases points.len() - idx,
    {
        let scaled = points[idx].scale(num, den);
        points[idx] = scaled;
        idx += 1;
    }
    assert(points@ =~= scaled_points(old(points)@, num, den));
}

fn translate_array<const N: usize>(points: &mut [Pos2; N], delta: Vec2)
    ensures
        final(points)@ == translated_points(old(points)@, delta),
{
    let mut idx: usize = 0;
    while idx < N
        invariant
            idx <= N,
            forall|i: int| 0 <= i < idx ==> points@[i] == old(points)@[i].translated(delta),
            forall|i: int| idx <= i < N ==> points@[i] == old(points)@[i],
        decreases N - idx,
    {
        let moved = points[idx].translate(delta);
        points[idx] = moved;
        idx += 1;
    }
    assert(points@ =~= translated_points(old(points)@, delta));
}

fn scale_array<const N: usize>(points: &mut [Pos2; N], num: i32, den: i32)
    ensures
        final(points)@ == scaled_points(old(points)@, num, den),
{
    let mut idx: usize = 0;
    while idx < N
        invariant
            idx <= N,
            forall|i: int| 0 <= i < idx ==> points@[i] == old(points)@[i].scaled(num, den),
            forall|i: int| idx <= i < N ==> points@[i] == old(points)@[i],
        decreases N - idx,
    {
        let scaled = points[idx].scale(num, den);
        points[idx] = scaled;
        idx += 1;
    }
    assert(points@ =~= scaled_points(old(points)@, num, den));
}

impl Figure {
    /// Moves the shape by `delta`.
    pub fn translate(&mut self, delta: Vec2)
        ensures
            final(self)@ == old(self)@.translated(delta),
        decreases *old(self),
    {
        let ghost whole = *self;
        match self {
            Figure::Composite(shapes) => {
                let ghost before = *shapes;
                let mut idx: usize = 0;
                while idx < shapes.len()
                    invariant
                        idx <= shapes.len(),
                        shapes.len() == before.len(),
                        whole == Figure::Composite(before),
                        whole == *old(self),
                        forall|i: int| 0 <= i < idx ==> (#[trigger] shapes@[i])@ == before@[i]@.translated(delta),
                        forall|i: int| idx <= i < shapes.len() ==> shapes@[i] == before@[i],
                    decreases shapes.len() - idx,
                {
                    assert(decreases_to!(before => before[idx as int]));
                    assert(decreases_to!(whole => whole->Composite_0));
                    shapes[idx].translate(delta);
                    idx += 1;
                }
            },
            Figure::LineSegment { points, .. } => translate_array(points, delta),
            Figure::Path { points, .. } => translate_points(points, delta),
            Figure::Rect { rect, .. } => {
                *rect = rect.translate(delta);
            },
            Figure::Text { position, bounds, .. } => {
                *position = position.translate(delta);
                *bounds = bounds.translate(delta);
            },
            Figure::Mesh { vertices } => translate_points(vertices, delta),
            Figure::QuadraticBezier { points } => translate_array(points, delta),
            Figure::CubicBezier { points } => translate_array(points, delta),
        }
        proof {
            if whole is Composite {
                assert(self@->Composite_0 =~= whole@.translated(delta)->Composite_0);
            }
        }
    }

    /// Scales every coordinate of the shape about the origin by `num / den`.
    pub fn scale(&mut self, num: i32, den: i32)
        ensures
            final(self)@ == old(self)@.scaled(num, den),
        decreases *old(self),
    {
        let ghost whole = *self;
        match self {
            Figure::Composite(shapes) => {
                let ghost before = *shapes;
                let mut idx: usize = 0;
                while idx < shapes.len()
                    invariant
                        idx <= shapes.len(),
                        shapes.len() == before.len(),
                        whole == Figure::Composite(before),
                        whole == *old(self),
                        forall|i: int| 0 <= i < idx ==> (#[trigger] shapes@[i])@ == before@[i]@.scaled(num, den),
                        forall|i: int| idx <= i < shapes.len() ==> shapes@[i] == before@[i],
                    decreases shapes.len() - idx,
                {
                    assert(decreases_to!(before => before[idx as int]));
                    assert(decreases_to!(whole => whole->Composite_0));
                    shapes[idx].scale(num, den);
                    idx += 1;
                }
            },
            Figure::LineSegment { points, .. } => scale_array(points, num, den),
            Figure::Path { points, .. } => scale_points(points, num, den),
            Figure::Rect { rect, .. } => {
                *rect = rect.scale(num, den);
            },
            Figure::Text { position, bounds, .. } => {
                *position = position.scale(num, den);
                *bounds = bounds.scale(num, den);
            },
            Figure::Mesh { vertices } => scale_points(vertices, num, den),
            Figure::QuadraticBezier { points } => scale_array(points, num, den),
            Figure::CubicBezier { points } => scale_array(points, num, den),
        }
        proof {
            if whole is Composite {
                assert(self@->Composite_0 =~= whole@.scaled(num, den)->Composite_0);
            }
        }
    }

    /// Scales every coordinate of the shape about the origin by
    /// `zoom_factor / UNIT`.
    pub fn zoom(&mut self, zoom_factor: i32)
        ensures
            final(self)@ == old(self)@.zoomed(zoom_factor),
    {
        self.scale(zoom_factor, UNIT);
    }

    /// Checks whether the rectangle contains the given point and which
    /// action on the rectangle starts there.
    pub fn contains_in_rect(rect: Rect, point: Pos2, epsilon: u32) -> (r: Option<Contained>)
        ensures
            r == classify_in_rectangle(rect, point, epsilon),
    {
        if !rect.has_area() {
            None
        } else if !rect.contains(point) {
            None
        } else if point.within(rect.right_top(), epsilon) {
            Some(Contained::ResizeTRtoBL(point))
        } else if point.within(rect.left_top(), epsilon) {
            Some(Contained::ResizeTLtoBR(point))
        } else if point.within(rect.left_bottom(), epsilon) {
            Some(Contained::ResizeBLtoTR(point))
        } else if point.within(rect.right_bottom(), epsilon) {
            Some(Contained::ResizeBRtoTL(point))
        } else if on_segment(point, rect.right_top(), rect.right_bottom(), epsilon) {
            Some(Contained::ResizeRtoL(point))
        } else if on_segment(point, rect.left_top(), rect.left_bottom(), epsilon) {
            Some(Contained::ResizeLtoR(point))
        } else if on_segment(point, rect.left_top(), rect.right_top(), epsilon) {
            Some(Contained::ResizeTtoB(point))
        } else if on_segment(point, rect.left_bottom(), rect.right_bottom(), epsilon) {
            Some(Contained::ResizeBtoT(point))
        } else {
            Some(Contained::InArea)
        }
    }

    /// Checks whether the figure contains the given point.
    pub fn contains(&self, point: Pos2, epsilon: u32) -> (r: Option<Contained>)
        ensures
            r == self@.containment(point, epsilon),
        decreases self,
    {
        match self {
            Figure::Composite(shapes) => {
                let ghost models = self@->Composite_0;
                let mut idx: usize = 0;
                while idx < shapes.len()
                    invariant
                        idx <= shapes.len(),
                        *self == Figure::Composite(*shapes),
                        models.len() == shapes.len(),
                        forall|i: int| 0 <= i < models.len() ==> #[trigger] models[i] == shapes@[i]@,
                        self@.containment(point, epsilon) == first_hit(models, idx as int, point, epsilon),
                    decreases shapes.len() - idx,
                {
                    let hit = shapes[idx].contains(point, epsilon);
                    assert(models[idx as int] == shapes@[idx as int]@);
                    if hit.is_some() {
                        return hit;
                    }
                    idx += 1;
                }
                None
            },
            Figure::LineSegment { points, .. } => {
                if point.belong_line(points, epsilon) {
                    Some(Contained::InArea)
                } else {
                    None
                }
            },
            Figure::Path { points, .. } => {
                if point.belong_path(points, epsilon) {
                    Some(Contained::InArea)
                } else {
                    None
                }
            },
            Figure::Rect { rect, .. } => Figure::contains_in_rect(*rect, point, epsilon),
            Figure::Text { bounds, .. } => Figure::contains_in_rect(*bounds, point, epsilon),
            _ => None,
        }
    }
}

/// Whether every point of `points` can move by `delta` and back without
/// meeting the edge of the grid.
pub open spec fn points_move_freely(points: Seq<Pos2>, delta: Vec2) -> bool {
    forall|i: int| 0 <= i < points.len() ==> (#[trigger] points[i]).moves_freely(delta)
}

impl FigureModel {
    /// Whether every coordinate of the shape can move by `delta` and back
    /// without meeting the edge of the grid.
    pub open spec fn moves_freely(self, delta: Vec2) -> bool
        decreases self,
    {
        match self {
            FigureModel::Composite(shapes) => forall|i: int|
                0 <= i < shapes.len() ==> (#[trigger] shapes[i]).moves_freely(delta),
            FigureModel::LineSegment { points, .. } => points_move_freely(points, delta),
            FigureModel::Path { points, .. } => points_move_freely(points, delta),
            FigureModel::Rect { rect, .. } => rect.moves_freely(delta),
            FigureModel::Text { position, bounds, .. } => position.moves_freely(delta) && bounds.moves_freely(
                delta,
            ),
            FigureModel::Mesh { vertices } => points_move_freely(vertices, delta),
            FigureModel::QuadraticBezier { points } => points_move_freely(points, delta),
            FigureModel::CubicBezier { points } => points_move_freely(points, delta),
        }
    }

    /// Whether the corners of every rectangle of the shape lie the right way
    /// round.
    pub open spec fn ordered(self) -> bool
        decreases self,
    {
        match self {
            FigureModel::Composite(shapes) => forall|i: int| 0 <= i < shapes.len() ==> (#[trigger] shapes[i]).ordered(),
            FigureModel::Rect { rect, .. } => rect.ordered(),
            FigureModel::Text { bounds, .. } => bounds.ordered(),
            _ => true,
        }
    }
}

/// A point inside a rectangle with an area and within the tolerance of one
/// of its corners is classified as lying on a corner within the tolerance:
/// the answer is the diagonal resize of such a corner, never the resize of a
/// side nor the area. Where only one corner lies within the tolerance, the
/// answer is the resize of that corner.
pub proof fn lemma_corner_wins(rect: Rect, point: Pos2, epsilon: u32)
    requires
        rect.spec_has_area(),
        rect.spec_contains(point),
        point.spec_within(rect.spec_right_top(), epsilon) || point.spec_within(rect.spec_left_top(), epsilon)
            || point.spec_within(rect.spec_left_bottom(), epsilon) || point.spec_within(
            rect.spec_right_bottom(),
            epsilon,
        ),
    ensures
        ({
            let answer = classify_in_rectangle(rect, point, epsilon);
            ||| answer == Some(Contained::ResizeTRtoBL(point)) && point.spec_within(rect.spec_right_top(), epsilon)
            ||| answer == Some(Contained::ResizeTLtoBR(point)) && point.spec_within(rect.spec_left_top(), epsilon)
            ||| answer == Some(Contained::ResizeBLtoTR(point)) && point.spec_within(
                rect.spec_left_bottom(),
                epsilon,
            )
            ||| answer == Some(Contained::ResizeBRtoTL(point)) && point.spec_within(
                rect.spec_right_bottom(),
                epsilon,
            )
        }),
        point.spec_within(rect.spec_right_top(), epsilon) ==> classify_in_rectangle(rect, point, epsilon) == Some(
            Contained::ResizeTRtoBL(point),
        ),
        !point.spec_within(rect.spec_right_top(), epsilon) && point.spec_within(rect.spec_left_top(), epsilon)
            ==> classify_in_rectangle(rect, point, epsilon) == Some(Contained::ResizeTLtoBR(point)),
        !point.spec_within(rect.spec_right_top(), epsilon) && !point.spec_within(rect.spec_left_top(), epsilon)
            && point.spec_within(rect.spec_left_bottom(), epsilon) ==> classify_in_rectangle(
            rect,
            point,
            epsilon,
        ) == Some(Contained::ResizeBLtoTR(point)),
        !point.spec_within(rect.spec_right_top(), epsilon) && !point.spec_within(rect.spec_left_top(), epsilon)
            && !point.spec_within(rect.spec_left_bottom(), epsilon) ==> classify_in_rectangle(
            rect,
            point,
            epsilon,
        ) == Some(Contained::ResizeBRtoTL(point)),
{
}

/// Points that move by `delta` and then by its opposite are back where they
/// were, as long as no coordinate meets the edge of the grid on the way.
pub proof fn lemma_points_round_trip(points: Seq<Pos2>, delta: Vec2)
    requires
        points_move_freely(points, delta),
    ensures
        translated_points(translated_points(points, delta), delta.spec_neg()) == points,
{
    assert forall|i: int| 0 <= i < points.len() implies translated_points(
        translated_points(points, delta),
        delta.spec_neg(),
    )[i] == points[i] by {
        assert(points[i].moves_freely(delta));
    }
    assert(translated_points(translated_points(points, delta), delta.spec_neg()) =~= points);
}

/// A shape that moves by `delta` and then by its opposite is back where it
/// was, as long as no coordinate meets the edge of the grid on the way.
pub proof fn lemma_translate_round_trip(shape: FigureModel, delta: Vec2)
    requires
        shape.moves_freely(delta),
    ensures
        shape.translated(delta).translated(delta.spec_neg()) == shape,
    decreases shape,
{
    match shape {
        FigureModel::Composite(shapes) => {
            let there = shape.translated(delta)->Composite_0;
            let back = shape.translated(delta).translated(delta.spec_neg())->Composite_0;
            assert forall|i: int| 0 <= i < shapes.len() implies back[i] == shapes[i] by {
                assert(shapes[i].moves_freely(delta));
                lemma_translate_round_trip(shapes[i], delta);
                assert(there[i] == shapes[i].translated(delta));
            }
            assert(back =~= shapes);
        },
        FigureModel::LineSegment { points, .. } => {
            lemma_points_round_trip(points, delta);
        },
        FigureModel::Path { points, .. } => {
            lemma_points_round_trip(points, delta);
        },
        FigureModel::Rect { rect, .. } => {},
        FigureModel::Text { .. } => {},
        FigureModel::Mesh { vertices } => {
            lemma_points_round_trip(vertices, delta);
        },
        FigureModel::QuadraticBezier { points } => {
            lemma_points_round_trip(points, delta);
        },
        FigureModel::CubicBezier { points } => {
            lemma_points_round_trip(points, delta);
        },
    }
}

/// Scaling by a ratio of one, whatever the factor above and below, leaves a
/// shape as it is, as long as the corners of its rectangles lie the right way
/// round.
pub proof fn lemma_scale_same(shape: FigureModel, factor: i32)
    requires
        shape.ordered(),
        factor > 0,
    ensures
        shape.scaled(factor, factor) == shape,
    decreases shape,
{
    assert forall|p: Pos2| p.scaled(factor, factor) == p by {
        lemma_rescale_same(p.x, factor);
        lemma_rescale_same(p.y, factor);
    }
    match shape {
        FigureModel::Composite(shapes) => {
            let scaled = shape.scaled(factor, factor)->Composite_0;
            assert forall|i: int| 0 <= i < shapes.len() implies scaled[i] == shapes[i] by {
                assert(shapes[i].ordered());
                lemma_scale_same(shapes[i], factor);
            }
            assert(scaled =~= shapes);
        },
        FigureModel::LineSegment { points, .. } => {
            assert(scaled_points(points, factor, factor) =~= points);
        },
        FigureModel::Path { points, .. } => {
            assert(scaled_points(points, factor, factor) =~= points);
        },
        FigureModel::Rect { rect, .. } => {},
        FigureModel::Text { .. } => {},
        FigureModel::Mesh { vertices } => {
            assert(scaled_points(vertices, factor, factor) =~= vertices);
        },
        FigureModel::QuadraticBezier { points } => {
            assert(scaled_points(points, factor, factor) =~= points);
        },
        FigureModel::CubicBezier { points } => {
            assert(scaled_points(points, factor, factor) =~= points);
        },
    }
}

/// A zoom by the factor one leaves a shape as it is, as long as the corners
/// of its rectangles lie the right way round.
pub proof fn lemma_zoom_unit(shape: FigureModel)
    requires
        shape.ordered(),
    ensures
        shape.zoomed(UNIT) == shape,
{
    lemma_scale_same(shape, UNIT);
}

} // verus!
