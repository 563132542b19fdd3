//! A line between two points, and its division into equal parts.

use vstd::prelude::*;
use crate::geometry::{lemma_product_bound, sat, saturate, trunc_div, Pos2, Vec2, Zoom};

verus! {

/// A line from `start` to `end`.
#[derive(Clone, Copy, Debug, PartialEq, Eq, Structural)]
pub struct TwoPosLine {
    pub start: Pos2,
    pub end: Pos2,
}

/// The coordinate `idx` parts out of `parts` of the way from `from` to `to`,
/// the step rounded toward zero.
pub open spec fn part_coord(from: i32, to: i32, idx: int, parts: int) -> i32 {
    sat(from + trunc_div((to - from) * idx, parts))
}

/// The point `idx` parts out of `parts` of the way from `start` to `end`.
pub open spec fn part_point(start: Pos2, end: Pos2, idx: int, parts: int) -> Pos2 {
    Pos2 { x: part_coord(start.x, end.x, idx, parts), y: part_coord(start.y, end.y, idx, parts) }
}

/// The points that divide the line from `start` to `end` into `parts` equal
/// parts, both ends included. A division into no parts gives the two ends.
pub open spec fn split_points(start: Pos2, end: Pos2, parts: nat) -> Seq<Pos2> {
    if parts == 0 {
        seq![start, end]
    } else {
        Seq::new(
            parts + 1,
            |i: int|
                if i == 0 {
                    start
                } else if i == parts {
                    end
                } else {
                    part_point(start, end, i, parts as int)
                },
        )
    }
}

/// The coordinate halfway between two coordinates, rounded toward zero.
pub open spec fn mid_coord(a: i32, b: i32) -> i32 {
    trunc_div(a + b, 2) as i32
}

fn part_of(from: i32, to: i32, idx: usize, parts: usize) -> (r: i32)
    requires
        0 < idx < parts,
    ensures
        r == part_coord(from, to, idx as int, parts as int),
{
    let span: i128 = to as i128 - from as i128;
    proof {
        lemma_product_bound(span as int, idx as int, 0x1_0000_0000, 0x1_0000_0000_0000_0000);
    }
    let scaled: i128 = span * (idx as i128);
    let step: i128 = scaled / (parts as i128);
    proof {
        assert(-0x1_0000_0000_0000_0000_0000_0000 <= step <= 0x1_0000_0000_0000_0000_0000_0000)
            by (nonlinear_arith)
            requires
                step == trunc_div(scaled as int, parts as int),
                parts > 0,
                -0x1_0000_0000_0000_0000_0000_0000 <= scaled <= 0x1_0000_0000_0000_0000_0000_0000,
        ;
    }
    saturate(from as i128 + step)
}

fn halfway(a: i32, b: i32) -> (r: i32)
    ensures
        r == mid_coord(a, b),
{
    let sum: i64 = a as i64 + b as i64;
    (sum / 2) as i32
}

impl TwoPosLine {
    pub open spec fn spec_start(&self) -> Pos2 {
        self.start
    }

    pub open spec fn spec_end(&self) -> Pos2 {
        self.end
    }

    /// The line from `points[0]` to `points[1]`.
    pub fn new(points: [Pos2; 2]) -> (r: TwoPosLine)
        ensures
            r.spec_start() == points[0],
            r.spec_end() == points[1],
    {
        TwoPosLine { start: points[0], end: points[1] }
    }

    /// Moves the end of the line to a new point.
    pub fn move_to(&mut self, end_point: Pos2)
        ensures
            final(self).spec_start() == old(self).spec_start(),
            final(self).spec_end() == end_point,
    {
        self.end = end_point;
    }

    pub fn set_points(&mut self, points: [Pos2; 2])
        ensures
            final(self).spec_start() == points[0],
            final(self).spec_end() == points[1],
    {
        self.start = points[0];
        self.end = points[1];
    }

    /// The line moved by `delta`.
    pub fn translate(&self, delta: Vec2) -> (r: TwoPosLine)
        ensures
            r.spec_start() == self.spec_start().translated(delta),
            r.spec_end() == self.spec_end().translated(delta),
    {
        TwoPosLine { start: self.start.translate(delta), end: self.end.translate(delta) }
    }

    pub fn start(&self) -> (r: Pos2)
        ensures
            r == self.spec_start(),
    {
        self.start
    }

    pub fn end(&self) -> (r: Pos2)
        ensures
            r == self.spec_end(),
    {
        self.end
    }

    pub fn into_points(&self) -> (r: [Pos2; 2])
        ensures
            r[0] == self.spec_start(),
            r[1] == self.spec_end(),
    {
        [self.start, self.end]
    }

    pub fn set_start(&mut self, pos: Pos2)
        ensures
            final(self).spec_start() == pos,
            final(self).spec_end() == old(self).spec_end(),
    {
        self.start = pos;
    }

    /// The point halfway along the line.
    pub fn center(&self) -> (r: Pos2)
        ensures
            r.x == mid_coord(self.spec_start().x, self.spec_end().x),
            r.y == mid_coord(self.spec_start().y, self.spec_end().y),
    {
        Pos2 { x: halfway(self.start.x, self.end.x), y: halfway(self.start.y, self.end.y) }
    }

    /// Divides the line into `parts` equal parts and returns the dividing
    /// points, from the start of the line to its end.
    pub fn split(&self, parts: usize) -> (res: Vec<Pos2>)
        ensures
            res@ == split_points(self.spec_start(), self.spec_end(), parts as nat),
    {
        let mut res: Vec<Pos2> = Vec::new();
        res.push(self.start);
        let mut idx: usize = 1;
        while idx < parts
            invariant
                1 <= idx,
                parts >= 1 ==> idx <= parts,
                res@.len() == (if parts == 0 { 1 } else { idx as int }),
                res@[0] == self.start,
                forall|i: int| 0 < i < res@.len() ==> res@[i] == part_point(self.start, self.end, i, parts as int),
            decreases parts - idx,
        {
            res.push(
                Pos2 {
                    x: part_of(self.start.x, self.end.x, idx, parts),
                    y: part_of(self.start.y, self.end.y, idx, parts),
                },
            );
            idx += 1;
        }
        res.push(self.end);
        assert(res@ =~= split_points(self.start, self.end, parts as nat));
        res
    }
}

impl Zoom for TwoPosLine {
    open spec fn zoomed(&self, zoom_factor: i32) -> TwoPosLine {
        TwoPosLine { start: self.start.zoomed(zoom_factor), end: self.end.zoomed(zoom_factor) }
    }

    open spec fn unzoomed(&self, zoom_factor: i32) -> TwoPosLine {
        TwoPosLine { start: self.start.unzoomed(zoom_factor), end: self.end.unzoomed(zoom_factor) }
    }

    fn zoom(&self, zoom_factor: i32) -> (r: TwoPosLine) {
        TwoPosLine { start: self.start.zoom(zoom_factor), end: self.end.zoom(zoom_factor) }
    }

    fn unzoom(&self, zoom_factor: i32) -> (r: TwoPosLine) {
        TwoPosLine { start: self.start.unzoom(zoom_factor), end: self.end.unzoom(zoom_factor) }
    }
}

/// A division into `parts` parts, at least one, gives `parts + 1` points, the
/// first at the start of the line and the last at its end.
pub proof fn lemma_split_ends(start: Pos2, end: Pos2, parts: nat)
    requires
        parts >= 1,
    ensures
        split_points(start, end, parts).len() == parts + 1,
        split_points(start, end, parts)[0] == start,
        split_points(start, end, parts)[parts as int] == end,
{
}

} // verus!
