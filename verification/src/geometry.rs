//! Points, vectors and rectangles on a fixed-point grid.
//!
//! Every coordinate is a whole number of grid steps, [`UNIT`] steps to one
//! canvas unit. Sums and products that leave the grid are held at its edge, so
//! no operation here can overflow or fail.

use vstd::prelude::*;

verus! {

/// Grid steps per canvas unit: a coordinate of `UNIT` is one unit, and a zoom
/// factor of `UNIT` is the identity.
pub const UNIT: i32 = 1000;

/// The coordinate nearest to `v` that the grid can hold.
pub open spec fn sat(v: int) -> i32 {
    if v < i32::MIN {
        i32::MIN
    } else if v > i32::MAX {
        i32::MAX
    } else {
        v as i32
    }
}

/// Quotient of `a` by `b`, rounded toward zero.
pub open spec fn trunc_div(a: int, b: int) -> int
    recommends
        b != 0,
{
    if a >= 0 {
        if b > 0 {
            a / b
        } else {
            -(a / (-b))
        }
    } else {
        if b > 0 {
            -((-a) / b)
        } else {
            (-a) / (-b)
        }
    }
}

/// `v * num / den` rounded toward zero and held on the grid. With a zero
/// denominator the result runs to the edge of the grid on the side of the
/// product's sign, and stays zero where the product is zero.
pub open spec fn rescaled(v: int, num: int, den: int) -> i32 {
    if den == 0 {
        if v * num > 0 {
            i32::MAX
        } else if v * num < 0 {
            i32::MIN
        } else {
            0i32
        }
    } else {
        sat(trunc_div(v * num, den))
    }
}

/// The product of two bounded values lies within the product of their bounds.
pub proof fn lemma_product_bound(a: int, b: int, m: int, n: int)
    by (nonlinear_arith)
    requires
        -m <= a <= m,
        -n <= b <= n,
    ensures
        -(m * n) <= a * b <= m * n,
{
}

/// A wide value brought back onto the grid.
pub fn saturate(v: i128) -> (r: i32)
    ensures
        r == sat(v as int),
{
    if v < i32::MIN as i128 {
        i32::MIN
    } else if v > i32::MAX as i128 {
        i32::MAX
    } else {
        v as i32
    }
}

/// Sum of two coordinates, held at the edge of the grid when it leaves it.
pub fn sat_add(a: i32, b: i32) -> (r: i32)
    ensures
        r == sat(a + b),
{
    let wide: i64 = a as i64 + b as i64;
    if wide < i32::MIN as i64 {
        i32::MIN
    } else if wide > i32::MAX as i64 {
        i32::MAX
    } else {
        wide as i32
    }
}

/// Difference of two coordinates, held at the edge of the grid when it leaves
/// it.
pub fn sat_sub(a: i32, b: i32) -> (r: i32)
    ensures
        r == sat(a - b),
{
    let wide: i64 = a as i64 - b as i64;
    if wide < i32::MIN as i64 {
        i32::MIN
    } else if wide > i32::MAX as i64 {
        i32::MAX
    } else {
        wide as i32
    }
}

/// Scales `v` by the ratio `num / den`.
pub fn rescale(v: i32, num: i32, den: i32) -> (r: i32)
    ensures
        r == rescaled(v as int, num as int, den as int),
{
    proof {
        lemma_product_bound(v as int, num as int, 0x8000_0000, 0x8000_0000);
    }
    let product: i64 = (v as i64) * (num as i64);
    if den == 0 {
        if product > 0 {
            i32::MAX
        } else if product < 0 {
            i32::MIN
        } else {
            0
        }
    } else {
        let quotient: i64 = if den < 0 {
            (-product) / (-(den as i64))
        } else {
            product / (den as i64)
        };
        if quotient < i32::MIN as i64 {
            i32::MIN
        } else if quotient > i32::MAX as i64 {
            i32::MAX
        } else {
            quotient as i32
        }
    }
}

/// Scaling about the origin by a fixed-point factor.
pub trait Zoom: Sized {
    /// The value scaled by `zoom_factor / UNIT`.
    spec fn zoomed(&self, zoom_factor: i32) -> Self;

    /// The value scaled by `UNIT / zoom_factor`.
    spec fn unzoomed(&self, zoom_factor: i32) -> Self;

    fn zoom(&self, zoom_factor: i32) -> (r: Self)
        ensures
            r == self.zoomed(zoom_factor),
    ;

    fn unzoom(&self, zoom_factor: i32) -> (r: Self)
        ensures
            r == self.unzoomed(zoom_factor),
    ;
}

/// Tolerance tests of a point against a point and against a boxed line.
pub trait PointMath {
    /// Whether the point lies in the box spanned by the line's two ends, the
    /// first moved back and the second moved forward by `tolerance` on both
    /// axes.
    spec fn spec_in_line(&self, line: [Pos2; 2], tolerance: u32) -> bool;

    /// Whether the point lies strictly nearer than `tolerance` to `pos`.
    spec fn spec_over(&self, pos: Pos2, tolerance: u32) -> bool;

    fn in_line(&self, line: [Pos2; 2], tolerance: u32) -> (r: bool)
        ensures
            r == self.spec_in_line(line, tolerance),
    ;

    fn over(&self, pos: Pos2, tolerance: u32) -> (r: bool)
        ensures
            r == self.spec_over(pos, tolerance),
    ;
}

/// A displacement on the grid.
#[derive(Clone, Copy, Debug, PartialEq, Eq, Structural)]
pub struct Vec2 {
    pub x: i32,
    pub y: i32,
}

/// A position on the grid.
#[derive(Clone, Copy, Debug, PartialEq, Eq, Structural)]
pub struct Pos2 {
    pub x: i32,
    pub y: i32,
}

/// An axis-aligned rectangle given by two corners. `min` is the left top
/// corner and `max` the right bottom one; a rectangle whose `min` lies beyond
/// its `max` on an axis holds no point. A rectangle without width or without
/// height has no area: it can hold points, but nothing can be done at them.
#[derive(Clone, Copy, Debug, PartialEq, Eq, Structural)]
pub struct Rect {
    pub min: Pos2,
    pub max: Pos2,
}

impl Vec2 {
    /// The displacement that moves nothing.
    pub fn zero() -> (r: Vec2)
        ensures
            r == (Vec2 { x: 0, y: 0 }),
    {
        Vec2 { x: 0, y: 0 }
    }

    pub fn new(x: i32, y: i32) -> (r: Vec2)
        ensures
            r == (Vec2 { x, y }),
    {
        Vec2 { x, y }
    }

    /// The opposite displacement. The far negative edge of the grid has no
    /// opposite and maps to the far positive edge.
    pub open spec fn spec_neg(self) -> Vec2 {
        Vec2 { x: sat(-(self.x as int)), y: sat(-(self.y as int)) }
    }

    pub fn neg(self) -> (r: Vec2)
        ensures
            r == self.spec_neg(),
    {
        Vec2 { x: sat_sub(0, self.x), y: sat_sub(0, self.y) }
    }
}

impl Zoom for Vec2 {
    open spec fn zoomed(&self, zoom_factor: i32) -> Vec2 {
        Vec2 {
            x: rescaled(self.x as int, zoom_factor as int, UNIT as int),
            y: rescaled(self.y as int, zoom_factor as int, UNIT as int),
        }
    }

    open spec fn unzoomed(&self, zoom_factor: i32) -> Vec2 {
        Vec2 {
            x: rescaled(self.x as int, UNIT as int, zoom_factor as int),
            y: rescaled(self.y as int, UNIT as int, zoom_factor as int),
        }
    }

    fn zoom(&self, zoom_factor: i32) -> (r: Vec2) {
        Vec2 { x: rescale(self.x, zoom_factor, UNIT), y: rescale(self.y, zoom_factor, UNIT) }
    }

    fn unzoom(&self, zoom_factor: i32) -> (r: Vec2) {
        Vec2 { x: rescale(self.x, UNIT, zoom_factor), y: rescale(self.y, UNIT, zoom_factor) }
    }
}

impl Pos2 {
    /// The origin of the grid.
    pub fn zero() -> (r: Pos2)
        ensures
            r == (Pos2 { x: 0, y: 0 }),
    {
        Pos2 { x: 0, y: 0 }
    }

    pub fn new(x: i32, y: i32) -> (r: Pos2)
        ensures
            r == (Pos2 { x, y }),
    {
        Pos2 { x, y }
    }

    /// The point moved by `delta`, each coordinate held on the grid.
    pub open spec fn translated(self, delta: Vec2) -> Pos2 {
        Pos2 { x: sat(self.x + delta.x), y: sat(self.y + delta.y) }
    }

    /// The displacement that leads from `from` to this point.
    pub open spec fn delta_from(self, from: Pos2) -> Vec2 {
        Vec2 { x: sat(self.x - from.x), y: sat(self.y - from.y) }
    }

    /// Square of the distance between two points.
    pub open spec fn dist_sq(self, other: Pos2) -> int {
        (self.x - other.x) * (self.x - other.x) + (self.y - other.y) * (self.y - other.y)
    }

    /// Whether the distance between two points is at most `tolerance`.
    pub open spec fn spec_within(self, other: Pos2, tolerance: u32) -> bool {
        self.dist_sq(other) <= tolerance * tolerance
    }

    /// The point scaled about the origin by `num / den`.
    pub open spec fn scaled(self, num: i32, den: i32) -> Pos2 {
        Pos2 {
            x: rescaled(self.x as int, num as int, den as int),
            y: rescaled(self.y as int, num as int, den as int),
        }
    }

    /// Where the point is drawn once the view has changed: scaled from the
    /// `previous` zoom factor to `zoom_factor`, where both are positive, and
    /// then moved by `scroll_delta`, where `scrolled` says that the scroll has
    /// changed.
    pub open spec fn redrawn(self, zoom_factor: i32, previous: i32, scrolled: bool, scroll_delta: Vec2) -> Pos2 {
        let zoomed = if zoom_factor > 0 && previous > 0 {
            self.scaled(zoom_factor, previous)
        } else {
            self
        };
        if scrolled {
            zoomed.translated(scroll_delta)
        } else {
            zoomed
        }
    }

    pub fn redraw(self, zoom_factor: i32, previous: i32, scrolled: bool, scroll_delta: Vec2) -> (r: Pos2)
        ensures
            r == self.redrawn(zoom_factor, previous, scrolled, scroll_delta),
    {
        let zoomed = if zoom_factor > 0 && previous > 0 {
            self.scale(zoom_factor, previous)
        } else {
            self
        };
        if scrolled {
            zoomed.translate(scroll_delta)
        } else {
            zoomed
        }
    }

    pub fn translate(self, delta: Vec2) -> (r: Pos2)
        ensures
            r == self.translated(delta),
    {
        Pos2 { x: sat_add(self.x, delta.x), y: sat_add(self.y, delta.y) }
    }

    pub fn minus(self, from: Pos2) -> (r: Vec2)
        ensures
            r == self.delta_from(from),
    {
        Vec2 { x: sat_sub(self.x, from.x), y: sat_sub(self.y, from.y) }
    }

    pub fn distance_sq(self, other: Pos2) -> (r: i128)
        ensures
            r == self.dist_sq(other),
    {
        let dx: i128 = self.x as i128 - other.x as i128;
        let dy: i128 = self.y as i128 - other.y as i128;
        proof {
            lemma_product_bound(dx as int, dx as int, 0x1_0000_0000, 0x1_0000_0000);
            lemma_product_bound(dy as int, dy as int, 0x1_0000_0000, 0x1_0000_0000);
        }
        dx * dx + dy * dy
    }

    pub fn within(self, other: Pos2, tolerance: u32) -> (r: bool)
        ensures
            r == self.spec_within(other, tolerance),
    {
        let reach: i128 = tolerance as i128;
        proof {
            lemma_product_bound(reach as int, reach as int, 0x1_0000_0000, 0x1_0000_0000);
        }
        self.distance_sq(other) <= reach * reach
    }

    pub fn scale(self, num: i32, den: i32) -> (r: Pos2)
        ensures
            r == self.scaled(num, den),
    {
        Pos2 { x: rescale(self.x, num, den), y: rescale(self.y, num, den) }
    }
}

impl Zoom for Pos2 {
    open spec fn zoomed(&self, zoom_factor: i32) -> Pos2 {
        self.scaled(zoom_factor, UNIT)
    }

    open spec fn unzoomed(&self, zoom_factor: i32) -> Pos2 {
        self.scaled(UNIT, zoom_factor)
    }

    fn zoom(&self, zoom_factor: i32) -> (r: Pos2) {
        self.scale(zoom_factor, UNIT)
    }

    fn unzoom(&self, zoom_factor: i32) -> (r: Pos2) {
        self.scale(UNIT, zoom_factor)
    }
}

impl PointMath for Pos2 {
    open spec fn spec_in_line(&self, line: [Pos2; 2], tolerance: u32) -> bool {
        Rect::spec_from_two_pos(
            Pos2 { x: sat(line[0].x - tolerance), y: sat(line[0].y - tolerance) },
            Pos2 { x: sat(line[1].x + tolerance), y: sat(line[1].y + tolerance) },
        ).spec_contains(*self)
    }

    open spec fn spec_over(&self, pos: Pos2, tolerance: u32) -> bool {
        self.dist_sq(pos) < tolerance * tolerance
    }

    fn in_line(&self, line: [Pos2; 2], tolerance: u32) -> (r: bool) {
        let rect = Rect::from_two_pos(
            Pos2 {
                x: saturate(line[0].x as i128 - tolerance as i128),
                y: saturate(line[0].y as i128 - tolerance as i128),
            },
            Pos2 {
                x: saturate(line[1].x as i128 + tolerance as i128),
                y: saturate(line[1].y as i128 + tolerance as i128),
            },
        );
        rect.contains(*self)
    }

    fn over(&self, pos: Pos2, tolerance: u32) -> (r: bool) {
        let reach: i128 = tolerance as i128;
        proof {
            lemma_product_bound(reach as int, reach as int, 0x1_0000_0000, 0x1_0000_0000);
        }
        self.distance_sq(pos) < reach * reach
    }
}

/// The smaller of two coordinates.
pub open spec fn spec_min(a: i32, b: i32) -> i32 {
    if a <= b {
        a
    } else {
        b
    }
}

/// The larger of two coordinates.
pub open spec fn spec_max(a: i32, b: i32) -> i32 {
    if a >= b {
        a
    } else {
        b
    }
}

impl Rect {
    /// The rectangle that two opposite corners span, whichever way round they
    /// are given.
    pub open spec fn spec_from_two_pos(a: Pos2, b: Pos2) -> Rect {
        Rect {
            min: Pos2 { x: spec_min(a.x, b.x), y: spec_min(a.y, b.y) },
            max: Pos2 { x: spec_max(a.x, b.x), y: spec_max(a.y, b.y) },
        }
    }

    /// Whether `p` lies in the rectangle, its border included.
    pub open spec fn spec_contains(self, p: Pos2) -> bool {
        self.min.x <= p.x <= self.max.x && self.min.y <= p.y <= self.max.y
    }

    pub open spec fn spec_left_top(self) -> Pos2 {
        self.min
    }

    pub open spec fn spec_right_top(self) -> Pos2 {
        Pos2 { x: self.max.x, y: self.min.y }
    }

    pub open spec fn spec_left_bottom(self) -> Pos2 {
        Pos2 { x: self.min.x, y: self.max.y }
    }

    pub open spec fn spec_right_bottom(self) -> Pos2 {
        self.max
    }

    /// The rectangle moved by `delta`.
    pub open spec fn translated(self, delta: Vec2) -> Rect {
        Rect { min: self.min.translated(delta), max: self.max.translated(delta) }
    }

    /// The rectangle that the two corners span once both are scaled about the
    /// origin by `num / den`.
    pub open spec fn scaled(self, num: i32, den: i32) -> Rect {
        Rect::spec_from_two_pos(self.max.scaled(num, den), self.min.scaled(num, den))
    }

    /// Whether both corners lie the right way round: `min` left of and above
    /// `max`, or on it.
    pub open spec fn ordered(self) -> bool {
        self.min.x <= self.max.x && self.min.y <= self.max.y
    }

    /// Whether the rectangle has an area: it has a width and a height.
    pub open spec fn spec_has_area(self) -> bool {
        self.min.x != self.max.x && self.min.y != self.max.y
    }

    pub fn from_two_pos(a: Pos2, b: Pos2) -> (r: Rect)
        ensures
            r == Rect::spec_from_two_pos(a, b),
    {
        Rect {
            min: Pos2 { x: if a.x <= b.x { a.x } else { b.x }, y: if a.y <= b.y { a.y } else { b.y } },
            max: Pos2 { x: if a.x >= b.x { a.x } else { b.x }, y: if a.y >= b.y { a.y } else { b.y } },
        }
    }

    pub fn contains(&self, p: Pos2) -> (r: bool)
        ensures
            r == self.spec_contains(p),
    {
        self.min.x <= p.x && p.x <= self.max.x && self.min.y <= p.y && p.y <= self.max.y
    }

    pub fn left_top(&self) -> (r: Pos2)
        ensures
            r == self.spec_left_top(),
    {
        self.min
    }

    pub fn right_top(&self) -> (r: Pos2)
        ensures
            r == self.spec_right_top(),
    {
        Pos2 { x: self.max.x, y: self.min.y }
    }

    pub fn left_bottom(&self) -> (r: Pos2)
        ensures
            r == self.spec_left_bottom(),
    {
        Pos2 { x: self.min.x, y: self.max.y }
    }

    pub fn right_bottom(&self) -> (r: Pos2)
        ensures
            r == self.spec_right_bottom(),
    {
        self.max
    }

    pub fn translate(&self, delta: Vec2) -> (r: Rect)
        ensures
            r == self.translated(delta),
    {
        Rect { min: self.min.translate(delta), max: self.max.translate(delta) }
    }

    pub fn scale(&self, num: i32, den: i32) -> (r: Rect)
        ensures
            r == self.scaled(num, den),
    {
        Rect::from_two_pos(self.max.scale(num, den), self.min.scale(num, den))
    }

    /// Whether the rectangle has an area: it has a width and a height.
    pub fn has_area(&self) -> (r: bool)
        ensures
            r == self.spec_has_area(),
    {
        self.min.x != self.max.x && self.min.y != self.max.y
    }

    /// Moves the left side to `x`.
    pub fn set_left(&mut self, x: i32)
        ensures
            *final(self) == (Rect { min: Pos2 { x, y: old(self).min.y }, max: old(self).max }),
    {
        self.min.x = x;
    }

    /// Moves the right side to `x`.
    pub fn set_right(&mut self, x: i32)
        ensures
            *final(self) == (Rect { min: old(self).min, max: Pos2 { x, y: old(self).max.y } }),
    {
        self.max.x = x;
    }

    /// Moves the top side to `y`.
    pub fn set_top(&mut self, y: i32)
        ensures
            *final(self) == (Rect { min: Pos2 { x: old(self).min.x, y }, max: old(self).max }),
    {
        self.min.y = y;
    }

    /// Moves the bottom side to `y`.
    pub fn set_bottom(&mut self, y: i32)
        ensures
            *final(self) == (Rect { min: old(self).min, max: Pos2 { x: old(self).max.x, y } }),
    {
        self.max.y = y;
    }
}

impl Zoom for Rect {
    open spec fn zoomed(&self, zoom_factor: i32) -> Rect {
        self.scaled(zoom_factor, UNIT)
    }

    open spec fn unzoomed(&self, zoom_factor: i32) -> Rect {
        self.scaled(UNIT, zoom_factor)
    }

    fn zoom(&self, zoom_factor: i32) -> (r: Rect) {
        self.scale(zoom_factor, UNIT)
    }

    fn unzoom(&self, zoom_factor: i32) -> (r: Rect) {
        self.scale(UNIT, zoom_factor)
    }
}

/// Scaling by a ratio of one leaves a coordinate where it is.
pub proof fn lemma_rescale_same(v: i32, factor: i32)
    requires
        factor > 0,
    ensures
        rescaled(v as int, factor as int, factor as int) == v,
{
    let f = factor as int;
    if v >= 0 {
        let x = v as int;
        assert(x * f >= 0) by (nonlinear_arith)
            requires
                x >= 0,
                f > 0,
        ;
        vstd::arithmetic::div_mod::lemma_div_multiples_vanish(x, f);
        assert(x * f == f * x) by (nonlinear_arith);
    } else {
        let x = -(v as int);
        assert((v as int) * f < 0) by (nonlinear_arith)
            requires
                (v as int) < 0,
                f > 0,
        ;
        assert(-((v as int) * f) == f * x) by (nonlinear_arith)
            requires
                x == -(v as int),
        ;
        vstd::arithmetic::div_mod::lemma_div_multiples_vanish(x, f);
    }
}

impl Pos2 {
    /// Whether the point can move by `delta` and back without meeting the
    /// edge of the grid.
    pub open spec fn moves_freely(self, delta: Vec2) -> bool {
        &&& i32::MIN <= self.x + delta.x <= i32::MAX
        &&& i32::MIN <= self.y + delta.y <= i32::MAX
        &&& delta.x > i32::MIN
        &&& delta.y > i32::MIN
    }
}

impl Rect {
    /// Whether both corners can move by `delta` and back without meeting the
    /// edge of the grid.
    pub open spec fn moves_freely(self, delta: Vec2) -> bool {
        self.min.moves_freely(delta) && self.max.moves_freely(delta)
    }
}

} // verus!
