//! Tolerance-based membership of a point in a segment and in a polyline.

use vstd::prelude::*;
use crate::geometry::{lemma_product_bound, Pos2};

verus! {

/// Magnitude of an integer.
pub open spec fn abs(v: int) -> int {
    if v < 0 {
        -v
    } else {
        v
    }
}

/// Whether `v` lies between `a` and `b`, in either order, the range widened by
/// `epsilon` at both ends.
pub open spec fn in_span(v: int, a: int, b: int, epsilon: int) -> bool {
    if a <= b {
        a - epsilon <= v <= b + epsilon
    } else {
        b - epsilon <= v <= a + epsilon
    }
}

/// Twice the signed area of the triangle `a`, `b`, `p`: zero exactly when `p`
/// lies on the line through `a` and `b`.
pub open spec fn cross(p: Pos2, a: Pos2, b: Pos2) -> int {
    (p.x - a.x) * (b.y - a.y) - (p.y - a.y) * (b.x - a.x)
}

/// Whether `p` belongs to the segment from `a` to `b` within `epsilon`.
///
/// A segment of no length holds the points at distance at most `epsilon` from
/// it. On a vertical or horizontal segment the coordinate across the segment
/// must lie within `epsilon` of it and the coordinate along it within the
/// segment's span widened by `epsilon`. On an oblique segment the point must
/// lie within `epsilon` of the segment's line both along the x axis and along
/// the y axis, and within the widened span on both axes.
pub open spec fn belongs_to_segment(p: Pos2, a: Pos2, b: Pos2, epsilon: u32) -> bool {
    if a == b {
        p.spec_within(a, epsilon)
    } else if a.x == b.x {
        abs(p.x - a.x) <= epsilon && in_span(p.y as int, a.y as int, b.y as int, epsilon as int)
    } else if a.y == b.y {
        abs(p.y - a.y) <= epsilon && in_span(p.x as int, a.x as int, b.x as int, epsilon as int)
    } else {
        &&& abs(cross(p, a, b)) <= epsilon * abs(b.x - a.x)
        &&& abs(cross(p, a, b)) <= epsilon * abs(b.y - a.y)
        &&& in_span(p.x as int, a.x as int, b.x as int, epsilon as int)
        &&& in_span(p.y as int, a.y as int, b.y as int, epsilon as int)
    }
}

/// Whether `p` belongs to one of the segments between neighbouring points of
/// `path`.
pub open spec fn belongs_to_path(p: Pos2, path: Seq<Pos2>, epsilon: u32) -> bool {
    exists|i: int| 0 <= i < path.len() - 1 && belongs_to_segment(p, #[trigger] path[i], path[i + 1], epsilon)
}

/// Membership of a point in a segment and in a polyline, within a tolerance.
pub trait PointAlgoritm {
    spec fn spec_belong_line(&self, line: &[Pos2; 2], epsilon: u32) -> bool;

    spec fn spec_belong_path(&self, path: &Vec<Pos2>, epsilon: u32) -> bool;

    /// Checks whether the point lies on the given line.
    fn belong_line(&self, line: &[Pos2; 2], epsilon: u32) -> (r: bool)
        ensures
            r == self.spec_belong_line(line, epsilon),
    ;

    /// Checks whether the point lies on one of the path's segments.
    fn belong_path(&self, path: &Vec<Pos2>, epsilon: u32) -> (r: bool)
        ensures
            r == self.spec_belong_path(path, epsilon),
    ;
}

fn magnitude(v: i128) -> (r: i128)
    requires
        v > i128::MIN,
    ensures
        r == abs(v as int),
{
    if v < 0 {
        -v
    } else {
        v
    }
}

fn within_span(v: i32, a: i32, b: i32, epsilon: u32) -> (r: bool)
    ensures
        r == in_span(v as int, a as int, b as int, epsilon as int),
{
    let wide: i64 = v as i64;
    let reach: i64 = epsilon as i64;
    if a <= b {
        a as i64 - reach <= wide && wide <= b as i64 + reach
    } else {
        b as i64 - reach <= wide && wide <= a as i64 + reach
    }
}

/// Whether `p` belongs to the segment from `a` to `b` within `epsilon`.
pub fn on_segment(p: Pos2, a: Pos2, b: Pos2, epsilon: u32) -> (r: bool)
    ensures
        r == belongs_to_segment(p, a, b, epsilon),
{
    if a.x == b.x && a.y == b.y {
        p.within(a, epsilon)
    } else if a.x == b.x {
        magnitude(p.x as i128 - a.x as i128) <= epsilon as i128 && within_span(p.y, a.y, b.y, epsilon)
    } else if a.y == b.y {
        magnitude(p.y as i128 - a.y as i128) <= epsilon as i128 && within_span(p.x, a.x, b.x, epsilon)
    } else {
        let dx: i128 = b.x as i128 - a.x as i128;
        let dy: i128 = b.y as i128 - a.y as i128;
        let px: i128 = p.x as i128 - a.x as i128;
        let py: i128 = p.y as i128 - a.y as i128;
        let reach: i128 = epsilon as i128;
        proof {
            lemma_product_bound(px as int, dy as int, 0x1_0000_0000, 0x1_0000_0000);
            lemma_product_bound(py as int, dx as int, 0x1_0000_0000, 0x1_0000_0000);
            lemma_product_bound(reach as int, abs(dx as int), 0x1_0000_0000, 0x1_0000_0000);
            lemma_product_bound(reach as int, abs(dy as int), 0x1_0000_0000, 0x1_0000_0000);
        }
        let area: i128 = magnitude(px * dy - py * dx);
        area <= reach * magnitude(dx) && area <= reach * magnitude(dy) && within_span(
            p.x,
            a.x,
            b.x,
            epsilon,
        ) && within_span(p.y, a.y, b.y, epsilon)
    }
}

impl PointAlgoritm for Pos2 {
    open spec fn spec_belong_line(&self, line: &[Pos2; 2], epsilon: u32) -> bool {
        belongs_to_segment(*self, line[0], line[1], epsilon)
    }

    open spec fn spec_belong_path(&self, path: &Vec<Pos2>, epsilon: u32) -> bool {
        belongs_to_path(*self, path@, epsilon)
    }

    fn belong_line(&self, line: &[Pos2; 2], epsilon: u32) -> (r: bool) {
        on_segment(*self, line[0], line[1], epsilon)
    }

    fn belong_path(&self, path: &Vec<Pos2>, epsilon: u32) -> (r: bool) {
        let mut idx: usize = 1;
        while idx < path.len()
            invariant
                1 <= idx,
                forall|i: int| 0 <= i < idx - 1 ==> !belongs_to_segment(*self, #[trigger] path@[i], path@[i + 1], epsilon),
            decreases path.len() - idx,
        {
            if on_segment(*self, path[idx - 1], path[idx], epsilon) {
                return true;
            }
            idx += 1;
        }
        false
    }
}

/// Both ends of a segment belong to it, whatever the tolerance.
pub proof fn lemma_endpoints_belong(a: Pos2, b: Pos2, epsilon: u32)
    ensures
        belongs_to_segment(a, a, b, epsilon),
        belongs_to_segment(b, a, b, epsilon),
{
    assert(cross(a, a, b) == 0) by (nonlinear_arith);
    assert(cross(b, a, b) == 0) by (nonlinear_arith);
    assert(0 <= epsilon * abs(b.x - a.x)) by (nonlinear_arith);
    assert(0 <= epsilon * abs(b.y - a.y)) by (nonlinear_arith);
    assert(0 <= epsilon * epsilon) by (nonlinear_arith);
}

} // verus!
