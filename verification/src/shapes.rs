use vstd::prelude::*;

verus! {

/// A point (or vector) in the 2D integer plane, with coordinates (`x`, `y`).
#[derive(Clone, Copy)]
pub struct P {
    pub x: i32,
    pub y: i32,
}

/// The wedge (perp-dot) product of the vectors `(ux, uy)` and `(vx, vy)`,
/// over unbounded integers. Positive when the second vector lies
/// counter-clockwise from the first, zero when they are parallel.
pub open spec fn wedge_vals(ux: int, uy: int, vx: int, vy: int) -> int {
    ux * vy - uy * vx
}

/// True when `v` lies within the range of `i32`.
pub open spec fn in_i32(v: int) -> bool {
    i32::MIN <= v <= i32::MAX
}

/// True when the componentwise difference `a - b` fits in `i32`.
pub open spec fn sub_fits(a: P, b: P) -> bool {
    in_i32(a.x - b.x) && in_i32(a.y - b.y)
}

/// The product of two values in `i32` range stays well inside `i64` range.
proof fn lemma_i32_mul_bounds(a: int, b: int) by (nonlinear_arith)
    requires
        i32::MIN <= a <= i32::MAX,
        i32::MIN <= b <= i32::MAX,
    ensures
        -0x3fff_ffff_8000_0000 <= a * b <= 0x4000_0000_0000_0000,
{
}

impl P {
    pub fn new(x: i32, y: i32) -> (r: P)
        ensures
            r.x == x,
            r.y == y,
    {
        P { x, y }
    }

    /// Wedge product `self.x * rhs.y - self.y * rhs.x`, computed in a wider
    /// type so that it is exact for every pair of points.
    pub fn wedge(&self, rhs: &P) -> (r: i64)
        ensures
            r == wedge_vals(self.x as int, self.y as int, rhs.x as int, rhs.y as int),
    {
        proof {
            lemma_i32_mul_bounds(self.x as int, rhs.y as int);
            lemma_i32_mul_bounds(self.y as int, rhs.x as int);
        }
        (self.x as i64) * (rhs.y as i64) - (self.y as i64) * (rhs.x as i64)
    }

    /// Vector difference `self - other`, componentwise.
    pub fn minus(&self, other: &P) -> (r: P)
        requires
            sub_fits(*self, *other),
        ensures
            r.x == self.x - other.x,
            r.y == self.y - other.y,
    {
        P { x: self.x - other.x, y: self.y - other.y }
    }
}

/// A directed segment in the 2D integer plane, from `a` to `b`.
pub struct L {
    pub a: P,
    pub b: P,
}

impl L {
    pub fn new(a: i32, b: i32, c: i32, d: i32) -> (r: L)
        ensures
            r.a.x == a,
            r.a.y == b,
            r.b.x == c,
            r.b.y == d,
    {
        L { a: P::new(a, b), b: P::new(c, d) }
    }

    /// The direction vector `b - a`.
    pub fn vec(&self) -> (r: P)
        requires
            sub_fits(self.b, self.a),
        ensures
            r.x == self.b.x - self.a.x,
            r.y == self.b.y - self.a.y,
    {
        self.b.minus(&self.a)
    }
}

/// An axis-aligned box: `l` = left, `t` = top, `r` = right, `b` = bottom.
/// The vertical axis grows upward, so a well-formed box has `b <= t`
/// (and `l <= r`); the type does not enforce this, the overlap predicates
/// simply report no overlap for most empty boxes.
pub struct B {
    pub l: i32,
    pub t: i32,
    pub r: i32,
    pub b: i32,
}

impl B {
    pub fn new(l: i32, t: i32, r: i32, b: i32) -> (r_box: B)
        ensures
            r_box.l == l,
            r_box.t == t,
            r_box.r == r,
            r_box.b == b,
    {
        B { l, t, r, b }
    }

    /// The top-left corner.
    pub fn tl(&self) -> (r: P)
        ensures
            r.x == self.l,
            r.y == self.t,
    {
        P::new(self.l, self.t)
    }

    /// The top-right corner.
    pub fn tr(&self) -> (r: P)
        ensures
            r.x == self.r,
            r.y == self.t,
    {
        P::new(self.r, self.t)
    }

    /// The bottom-left corner.
    pub fn bl(&self) -> (r: P)
        ensures
            r.x == self.l,
            r.y == self.b,
    {
        P::new(self.l, self.b)
    }

    /// The bottom-right corner.
    pub fn br(&self) -> (r: P)
        ensures
            r.x == self.r,
            r.y == self.b,
    {
        P::new(self.r, self.b)
    }
}

} // verus!
