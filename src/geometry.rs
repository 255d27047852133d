//! Points and triangles in projected space, and the signed-area predicate.

use vstd::prelude::*;

use crate::fixed::lemma_product_bound;

verus! {

/// A point of projected space, in millionths of a normalized-device unit.
#[derive(Clone, Copy, Debug, PartialEq, Eq, Structural)]
pub struct Point2 {
    pub x: i32,
    pub y: i32,
}

/// A triangle of projected space.
#[derive(Clone, Copy, Debug, PartialEq, Eq, Structural)]
pub struct Triangle2 {
    pub a: Point2,
    pub b: Point2,
    pub c: Point2,
}

/// How far the sub-triangle areas may sum above the whole triangle's area
/// for a point to count as inside: 1e-9, in squared millionths.
pub const AREA_TOLERANCE: i128 = 1_000;

pub open spec fn abs(v: int) -> int {
    if v < 0 {
        -v
    } else {
        v
    }
}

/// Twice the signed area of the triangle `o`, `p`, `q`.
pub open spec fn cross(o: Point2, p: Point2, q: Point2) -> int {
    (p.x - o.x) * (q.y - o.y) - (p.y - o.y) * (q.x - o.x)
}

/// Twice the area of the triangle `o`, `p`, `q`.
pub open spec fn area2(o: Point2, p: Point2, q: Point2) -> int {
    abs(cross(o, p, q))
}

/// The three triangles that `p` forms with the edges of `t` have, together,
/// the area of `t`, up to the tolerance: `p` lies inside `t` or on its edge.
pub open spec fn contains(t: Triangle2, p: Point2) -> bool {
    abs(area2(p, t.a, t.b) + area2(p, t.b, t.c) + area2(p, t.c, t.a) - area2(t.a, t.b, t.c)) <= 2
        * AREA_TOLERANCE
}

/// Twice the area of the triangle `o`, `p`, `q`.
pub fn double_area(o: Point2, p: Point2, q: Point2) -> (r: i128)
    ensures
        r == area2(o, p, q),
        0 <= r <= 0x2_0000_0000_0000_0000,
{
    let px = p.x as i128 - o.x as i128;
    let py = p.y as i128 - o.y as i128;
    let qx = q.x as i128 - o.x as i128;
    let qy = q.y as i128 - o.y as i128;
    proof {
        lemma_product_bound(px as int, qy as int, 0x1_0000_0000);
        lemma_product_bound(py as int, qx as int, 0x1_0000_0000);
    }
    let c = px * qy - py * qx;
    if c < 0 {
        -c
    } else {
        c
    }
}

/// Whether `p` lies inside `t` or on its edge, by comparing areas.
pub fn point_in_triangle(p: Point2, t: &Triangle2) -> (r: bool)
    ensures
        r == contains(*t, p),
{
    let whole = double_area(t.a, t.b, t.c);
    let parts = double_area(p, t.a, t.b) + double_area(p, t.b, t.c) + double_area(p, t.c, t.a);
    let gap = parts - whole;
    let gap = if gap < 0 {
        -gap
    } else {
        gap
    };
    gap <= 2 * AREA_TOLERANCE
}

} // verus!
