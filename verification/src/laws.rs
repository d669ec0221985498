use vstd::math::max;
use vstd::math::min;
use vstd::prelude::*;

use crate::predicates::boxes_overlap;
use crate::predicates::orient;
use crate::predicates::segment_box_intersect;
use crate::predicates::segments_intersect;
use crate::shapes::B;
use crate::shapes::L;

verus! {

/// Multiplication of integers commutes.
proof fn lemma_mul_comm(a: int, b: int) by (nonlinear_arith)
    ensures
        a * b == b * a,
{
}

/// A product with a zero factor is zero.
proof fn lemma_zero_factor(a: int, b: int) by (nonlinear_arith)
    requires
        a == 0,
    ensures
        a * b == 0,
        b * a == 0,
{
}

/// A square is positive exactly when its root is nonzero.
proof fn lemma_square_positive(a: int) by (nonlinear_arith)
    ensures
        (a * a > 0) == (a != 0),
{
}

/// If the point `(x, y)` lies inside the rectangle `[l, r] x [b, t]`, the
/// rectangle's four corners cannot all lie strictly on one side of a line
/// through `(x, y)` with direction `(dx, dy)`: each corner's side is given
/// by the wedge `(corner - (x, y)) x (dx, dy)`.
proof fn lemma_corners_not_strictly_one_side(
    x: int,
    y: int,
    dx: int,
    dy: int,
    l: int,
    t: int,
    r: int,
    b: int,
) by (nonlinear_arith)
    requires
        l <= x <= r,
        b <= y <= t,
    ensures
        !((l - x) * dy - (t - y) * dx > 0 && (r - x) * dy - (t - y) * dx > 0 && (l - x) * dy - (b
            - y) * dx > 0 && (r - x) * dy - (b - y) * dx > 0),
        !((l - x) * dy - (t - y) * dx < 0 && (r - x) * dy - (t - y) * dx < 0 && (l - x) * dy - (b
            - y) * dx < 0 && (r - x) * dy - (b - y) * dx < 0),
{
}

/// Box overlap is symmetric: the two boxes may be given in either order.
pub proof fn lemma_box_overlap_symmetric(n: B, m: B)
    ensures
        boxes_overlap(n, m) == boxes_overlap(m, n),
{
}

/// Box overlap is reflexive: every non-empty box overlaps itself.
pub proof fn lemma_box_overlap_reflexive(n: B)
    requires
        n.l <= n.r,
        n.b <= n.t,
    ensures
        boxes_overlap(n, n),
{
}

/// Boxes that merely touch still overlap: if one box's right edge meets the
/// other's left edge and their vertical ranges share a point, the closed
/// intervals make the overlap test true.
pub proof fn lemma_touching_boxes_overlap(n: B, m: B)
    requires
        n.l <= n.r,
        m.l <= m.r,
        n.r == m.l,
        n.b <= m.t,
        m.b <= n.t,
    ensures
        boxes_overlap(n, m),
{
}

/// Segment intersection is symmetric: the two segments may be given in
/// either order.
pub proof fn lemma_segments_intersect_symmetric(s: L, t: L)
    ensures
        segments_intersect(s, t) == segments_intersect(t, s),
{
}

/// Segments that merely touch still intersect: if `s` ends exactly where
/// `t` begins, the closed-interval test reports an intersection.
pub proof fn lemma_touching_segments_intersect(s: L, t: L)
    requires
        s.b == t.a,
    ensures
        segments_intersect(s, t),
{
    let dx = s.b.x - s.a.x;
    let dy = s.b.y - s.a.y;
    let w1 = orient(s.a, s.b, t.a);
    let w2 = orient(s.a, s.b, t.b);
    let w3 = orient(t.a, t.b, s.a);
    let w4 = orient(t.a, t.b, s.b);
    lemma_mul_comm(dx, dy);
    assert(w1 == 0);
    lemma_zero_factor(w1, w2);
    lemma_zero_factor(s.b.y - t.a.y, t.b.x - t.a.x);
    lemma_zero_factor(s.b.x - t.a.x, t.b.y - t.a.y);
    assert(w4 == 0);
    lemma_zero_factor(w4, w3);
}

/// A zero-length segment still gets a well-defined answer: it intersects
/// `t` exactly when its one point is collinear with `t`'s line and lies
/// within `t`'s x-extent.
pub proof fn lemma_degenerate_segment_intersection(s: L, t: L)
    requires
        s.a == s.b,
    ensures
        segments_intersect(s, t) == (orient(t.a, t.b, s.a) == 0 && min(
            t.a.x as int,
            t.b.x as int,
        ) <= s.a.x <= max(t.a.x as int, t.b.x as int)),
{
    let w1 = orient(s.a, s.b, t.a);
    let w2 = orient(s.a, s.b, t.b);
    let w3 = orient(t.a, t.b, s.a);
    lemma_zero_factor(s.b.x - s.a.x, t.a.y - s.a.y);
    lemma_zero_factor(s.b.y - s.a.y, t.a.x - s.a.x);
    lemma_zero_factor(s.b.x - s.a.x, t.b.y - s.a.y);
    lemma_zero_factor(s.b.y - s.a.y, t.b.x - s.a.x);
    assert(w1 == 0 && w2 == 0);
    lemma_zero_factor(w1, w2);
    assert(orient(t.a, t.b, s.b) == w3);
    lemma_square_positive(w3);
}

/// A segment whose endpoints both lie within a box's coordinate ranges
/// intersects the box.
pub proof fn lemma_segment_in_box_intersects(s: L, b: B)
    requires
        b.l <= s.a.x <= b.r,
        b.b <= s.a.y <= b.t,
        b.l <= s.b.x <= b.r,
        b.b <= s.b.y <= b.t,
    ensures
        segment_box_intersect(s, b),
{
    lemma_corners_not_strictly_one_side(
        s.a.x as int,
        s.a.y as int,
        s.b.x - s.a.x,
        s.b.y - s.a.y,
        b.l as int,
        b.t as int,
        b.r as int,
        b.b as int,
    );
}

} // verus!
