use vstd::math::max;
use vstd::math::min;
use vstd::prelude::*;

use crate::shapes::in_i32;
use crate::shapes::sub_fits;
use crate::shapes::wedge_vals;
use crate::shapes::B;
use crate::shapes::L;
use crate::shapes::P;

verus! {

/// Orientation of the point `p` relative to the directed line from `a` to
/// `b`: the wedge of `b - a` with `p - a`. Positive when `p` lies to the
/// left of the line, zero when the three points are collinear.
pub open spec fn orient(a: P, b: P, p: P) -> int {
    wedge_vals(b.x - a.x, b.y - a.y, p.x - a.x, p.y - a.y)
}

/// Two boxes overlap when their closed x-intervals and closed y-intervals
/// both overlap, so touching edges and corners count.
pub open spec fn boxes_overlap(n: B, m: B) -> bool {
    n.l <= m.r && m.l <= n.r && n.b <= m.t && m.b <= n.t
}

/// Two segments intersect when neither separates the other's endpoints
/// strictly to one side of its line, and their x-projections overlap
/// (the projection test settles the collinear and degenerate cases).
pub open spec fn segments_intersect(s: L, t: L) -> bool {
    let w1 = orient(s.a, s.b, t.a);
    let w2 = orient(s.a, s.b, t.b);
    let w3 = orient(t.a, t.b, s.a);
    let w4 = orient(t.a, t.b, s.b);
    &&& !(w1 * w2 > 0)
    &&& !(w3 * w4 > 0)
    &&& min(s.a.x as int, s.b.x as int) <= max(t.a.x as int, t.b.x as int)
    &&& min(t.a.x as int, t.b.x as int) <= max(s.a.x as int, s.b.x as int)
}

/// Wedge of `corner - s.a` with `s`'s direction vector, for the box-corner
/// side test.
pub open spec fn corner_side(s: L, cx: int, cy: int) -> int {
    wedge_vals(cx - s.a.x, cy - s.a.y, s.b.x - s.a.x, s.b.y - s.a.y)
}

/// A segment and a box intersect under this (conservative) test when the
/// box's four corners do not all lie strictly on one side of the segment's
/// line, and the segment's bounding box overlaps the box on both axes.
pub open spec fn segment_box_intersect(s: L, b: B) -> bool {
    let wtl = corner_side(s, b.l as int, b.t as int);
    let wtr = corner_side(s, b.r as int, b.t as int);
    let wbl = corner_side(s, b.l as int, b.b as int);
    let wbr = corner_side(s, b.r as int, b.b as int);
    &&& !(wtl > 0 && wtr > 0 && wbl > 0 && wbr > 0)
    &&& !(wtl < 0 && wtr < 0 && wbl < 0 && wbr < 0)
    &&& !(max(s.a.x as int, s.b.x as int) < b.l || min(s.a.x as int, s.b.x as int) > b.r)
    &&& !(max(s.a.y as int, s.b.y as int) < b.b || min(s.a.y as int, s.b.y as int) > b.t)
}

/// The coordinate differences that the segment-segment test forms all fit
/// in `i32` (a machine-width precondition, not a geometric one).
pub open spec fn seg_seg_fits(s: L, t: L) -> bool {
    &&& sub_fits(s.b, s.a)
    &&& sub_fits(t.b, t.a)
    &&& sub_fits(t.a, s.a)
    &&& sub_fits(t.b, s.a)
    &&& sub_fits(s.a, t.a)
    &&& sub_fits(s.b, t.a)
}

/// The coordinate differences that the segment-box test forms all fit in
/// `i32` (a machine-width precondition, not a geometric one).
pub open spec fn seg_box_fits(s: L, b: B) -> bool {
    &&& sub_fits(s.b, s.a)
    &&& in_i32(b.l - s.a.x)
    &&& in_i32(b.r - s.a.x)
    &&& in_i32(b.t - s.a.y)
    &&& in_i32(b.b - s.a.y)
}

/// A product is positive exactly when both factors carry the same
/// (nonzero) sign.
proof fn lemma_product_sign(a: int, b: int) by (nonlinear_arith)
    ensures
        (a * b > 0) == ((a > 0 && b > 0) || (a < 0 && b < 0)),
{
}

/// Returns true iff the two boxes overlap (closed intervals on both axes:
/// shared edges and corners count).
pub fn intersect_box_box(n: &B, m: &B) -> (r: bool)
    ensures
        r == boxes_overlap(*n, *m),
{
    n.l <= m.r && m.l <= n.r && n.b <= m.t && m.b <= n.t
}

/// Returns true iff the two segments share at least one point (touching
/// endpoints and collinear overlap count).
pub fn intersection_line_line(s: &L, t: &L) -> (r: bool)
    requires
        seg_seg_fits(*s, *t),
    ensures
        r == segments_intersect(*s, *t),
{
    let s_ab = s.vec();
    let t_ab = t.vec();

    // both points of `t` strictly on the same side of `s`
    let w1 = s_ab.wedge(&t.a.minus(&s.a));
    let w2 = s_ab.wedge(&t.b.minus(&s.a));
    proof {
        lemma_product_sign(w1 as int, w2 as int);
    }
    if (w1 > 0 && w2 > 0) || (w1 < 0 && w2 < 0) {
        return false;
    }

    // both points of `s` strictly on the same side of `t`
    let w3 = t_ab.wedge(&s.a.minus(&t.a));
    let w4 = t_ab.wedge(&s.b.minus(&t.a));
    proof {
        lemma_product_sign(w3 as int, w4 as int);
    }
    if (w3 > 0 && w4 > 0) || (w3 < 0 && w4 < 0) {
        return false;
    }

    // collinear or touching: decide by overlap of the x-projections
    let s_min: i32 = if s.a.x < s.b.x { s.a.x } else { s.b.x };
    let s_max: i32 = if s.a.x < s.b.x { s.b.x } else { s.a.x };
    let t_min: i32 = if t.a.x < t.b.x { t.a.x } else { t.b.x };
    let t_max: i32 = if t.a.x < t.b.x { t.b.x } else { t.a.x };
    s_min <= t_max && t_min <= s_max
}

/// Returns true iff the segment may touch the box: false when the box lies
/// strictly to one side of the segment's line, or when the segment's
/// bounding box misses the box on either axis; true otherwise (closed
/// intervals, so touching counts).
pub fn intersection_line_box(s: &L, b: &B) -> (r: bool)
    requires
        seg_box_fits(*s, *b),
    ensures
        r == segment_box_intersect(*s, *b),
{
    let d = s.vec();
    let wtl = b.tl().minus(&s.a).wedge(&d);
    let wtr = b.tr().minus(&s.a).wedge(&d);
    let wbl = b.bl().minus(&s.a).wedge(&d);
    let wbr = b.br().minus(&s.a).wedge(&d);

    // all four corners strictly on the same side of `s`'s line
    if wtl > 0 && wtr > 0 && wbl > 0 && wbr > 0 {
        return false;
    }
    if wtl < 0 && wtr < 0 && wbl < 0 && wbr < 0 {
        return false;
    }

    // x-projections disjoint
    let s_min_x: i32 = if s.a.x < s.b.x { s.a.x } else { s.b.x };
    let s_max_x: i32 = if s.a.x < s.b.x { s.b.x } else { s.a.x };
    if s_max_x < b.l || s_min_x > b.r {
        return false;
    }

    // y-projections disjoint
    let s_min_y: i32 = if s.a.y < s.b.y { s.a.y } else { s.b.y };
    let s_max_y: i32 = if s.a.y < s.b.y { s.b.y } else { s.a.y };
    if s_max_y < b.b || s_min_y > b.t {
        return false;
    }

    true
}

} // verus!
