//! The barycentric evaluator: exact area-ratio weights of a query point with
//! respect to a triangle of 2D integer points.
//!
//! The weight of a vertex is the signed doubled area of the sub-triangle that
//! replaces this vertex by the query point, and the common denominator is the
//! signed doubled area of the whole triangle, so each weight is the exact
//! rational `w / den`. The three weights always sum to the denominator, and at
//! a vertex the weight of that vertex is the whole denominator (the rational
//! weight `1`) while the other two are `0`. A degenerate triangle (zero
//! doubled area: collinear or coincident vertices) yields the sentinel
//! `(0, 0, 0)` with denominator `0` instead of a division by zero.

use vstd::prelude::*;
use crate::math::Pt2;

verus! {

/// Bound on the coordinates the evaluator accepts; keeps the doubled-area
/// products inside `i64`.
pub const COORD_LIMIT: i64 = 0x800_0000;

/// Signed doubled area of the triangle `(a, b, c)`: the cross product of the
/// edge vectors `b - a` and `c - a`. Positive for one winding, negative for
/// the other, zero exactly for collinear or coincident points.
pub open spec fn area2(ax: int, ay: int, bx: int, by: int, cx: int, cy: int) -> int {
    (bx - ax) * (cy - ay) - (by - ay) * (cx - ax)
}

/// The edge function of the directed edge `p1 -> p2` at the point `(x, y)`:
/// the signed area test deciding on which side of the edge the point lies.
/// It equals `-area2(p1, p2, (x, y))`.
pub open spec fn edge(p1x: int, p1y: int, p2x: int, p2y: int, x: int, y: int) -> int {
    (p2y - p1y) * x + (p1x - p2x) * y + (p2x * p1y - p1x * p2y)
}

/// Exact barycentric weights: the numerators for the three vertices and the
/// common denominator. The rational weight of vertex `a` is `wa / den`.
#[derive(Clone, Copy, PartialEq, Eq, Structural, Debug)]
pub struct BaryWeights {
    pub wa: i64,
    pub wb: i64,
    pub wc: i64,
    pub den: i64,
}

/// Area-ratio weights of the query point `p` relative to the triangle
/// `(a, b, c)`. For a degenerate triangle the sentinel `(0, 0, 0)` with
/// denominator `0` is returned for every query point.
pub fn barycentric(p: Pt2, a: Pt2, b: Pt2, c: Pt2) -> (r: BaryWeights)
    requires
        -COORD_LIMIT <= p.x <= COORD_LIMIT,
        -COORD_LIMIT <= p.y <= COORD_LIMIT,
        -COORD_LIMIT <= a.x <= COORD_LIMIT,
        -COORD_LIMIT <= a.y <= COORD_LIMIT,
        -COORD_LIMIT <= b.x <= COORD_LIMIT,
        -COORD_LIMIT <= b.y <= COORD_LIMIT,
        -COORD_LIMIT <= c.x <= COORD_LIMIT,
        -COORD_LIMIT <= c.y <= COORD_LIMIT,
    ensures
        area2(a.x as int, a.y as int, b.x as int, b.y as int, c.x as int, c.y as int) == 0
            ==> r == (BaryWeights { wa: 0i64, wb: 0i64, wc: 0i64, den: 0i64 }),
        area2(a.x as int, a.y as int, b.x as int, b.y as int, c.x as int, c.y as int) != 0 ==> {
            &&& r.den == area2(a.x as int, a.y as int, b.x as int, b.y as int, c.x as int, c.y as int)
            &&& r.wa == area2(p.x as int, p.y as int, b.x as int, b.y as int, c.x as int, c.y as int)
            &&& r.wb == area2(a.x as int, a.y as int, p.x as int, p.y as int, c.x as int, c.y as int)
            &&& r.wc == area2(a.x as int, a.y as int, b.x as int, b.y as int, p.x as int, p.y as int)
        },
{
    proof {
        lemma_area2_products_bounded(p.x as int, p.y as int, a.x as int, a.y as int,
            b.x as int, b.y as int, c.x as int, c.y as int);
    }
    let den = (b.x - a.x) * (c.y - a.y) - (b.y - a.y) * (c.x - a.x);
    if den == 0 {
        return BaryWeights { wa: 0, wb: 0, wc: 0, den: 0 };
    }
    let wa = (b.x - p.x) * (c.y - p.y) - (b.y - p.y) * (c.x - p.x);
    let wb = (p.x - a.x) * (c.y - a.y) - (p.y - a.y) * (c.x - a.x);
    let wc = (b.x - a.x) * (p.y - a.y) - (b.y - a.y) * (p.x - a.x);
    BaryWeights { wa, wb, wc, den }
}

/// All products of coordinate differences the evaluator forms stay well
/// inside `i64` when the coordinates are within [`COORD_LIMIT`].
proof fn lemma_area2_products_bounded(px: int, py: int, ax: int, ay: int, bx: int, by: int, cx: int, cy: int)
    requires
        -COORD_LIMIT <= px <= COORD_LIMIT,
        -COORD_LIMIT <= py <= COORD_LIMIT,
        -COORD_LIMIT <= ax <= COORD_LIMIT,
        -COORD_LIMIT <= ay <= COORD_LIMIT,
        -COORD_LIMIT <= bx <= COORD_LIMIT,
        -COORD_LIMIT <= by <= COORD_LIMIT,
        -COORD_LIMIT <= cx <= COORD_LIMIT,
        -COORD_LIMIT <= cy <= COORD_LIMIT,
    ensures
        forall|u1: int, v1: int, u2: int, v2: int|
            -COORD_LIMIT <= u1 <= COORD_LIMIT && -COORD_LIMIT <= v1 <= COORD_LIMIT
                && -COORD_LIMIT <= u2 <= COORD_LIMIT && -COORD_LIMIT <= v2 <= COORD_LIMIT
                ==> -(4 * COORD_LIMIT * COORD_LIMIT) <= #[trigger] ((u1 - v1) * (u2 - v2))
                    <= 4 * COORD_LIMIT * COORD_LIMIT,
{
    assert forall|u1: int, v1: int, u2: int, v2: int|
        -COORD_LIMIT <= u1 <= COORD_LIMIT && -COORD_LIMIT <= v1 <= COORD_LIMIT
            && -COORD_LIMIT <= u2 <= COORD_LIMIT && -COORD_LIMIT <= v2 <= COORD_LIMIT
            implies -(4 * COORD_LIMIT * COORD_LIMIT) <= #[trigger] ((u1 - v1) * (u2 - v2))
                <= 4 * COORD_LIMIT * COORD_LIMIT by {
        crate::math::lemma_mul_bound(u1 - v1, u2 - v2, 2 * COORD_LIMIT, 2 * COORD_LIMIT);
    }
}

/// The three barycentric weights sum to the denominator: as rationals the
/// weights of any query point sum to exactly `1` whenever the triangle is
/// non-degenerate.
pub proof fn lemma_bary_weights_sum(px: int, py: int, ax: int, ay: int, bx: int, by: int, cx: int, cy: int)
    ensures
        area2(px, py, bx, by, cx, cy) + area2(ax, ay, px, py, cx, cy) + area2(ax, ay, bx, by, px, py)
            == area2(ax, ay, bx, by, cx, cy),
{
    assert(area2(px, py, bx, by, cx, cy) + area2(ax, ay, px, py, cx, cy)
        + area2(ax, ay, bx, by, px, py) == area2(ax, ay, bx, by, cx, cy)) by (nonlinear_arith);
}

/// Evaluating at a vertex recovers that vertex exactly: the weight of the
/// vertex equals the denominator (the rational weight `1`) and the other two
/// weights are `0`.
pub proof fn lemma_bary_at_vertex(ax: int, ay: int, bx: int, by: int, cx: int, cy: int)
    ensures
        area2(ax, ay, ax, ay, cx, cy) == 0,
        area2(ax, ay, bx, by, ax, ay) == 0,
        area2(bx, by, bx, by, cx, cy) == 0,
        area2(ax, ay, bx, by, bx, by) == 0,
        area2(cx, cy, bx, by, cx, cy) == 0,
        area2(ax, ay, cx, cy, cx, cy) == 0,
{
    assert(area2(ax, ay, ax, ay, cx, cy) == 0) by (nonlinear_arith);
    assert(area2(ax, ay, bx, by, ax, ay) == 0) by (nonlinear_arith);
    assert(area2(bx, by, bx, by, cx, cy) == 0) by (nonlinear_arith);
    assert(area2(ax, ay, bx, by, bx, by) == 0) by (nonlinear_arith);
    assert(area2(cx, cy, bx, by, cx, cy) == 0) by (nonlinear_arith);
    assert(area2(ax, ay, cx, cy, cx, cy) == 0) by (nonlinear_arith);
}

/// The edge function is the negated signed doubled area with the query point
/// as the third vertex.
pub proof fn lemma_edge_is_neg_area2(p1x: int, p1y: int, p2x: int, p2y: int, x: int, y: int)
    ensures
        edge(p1x, p1y, p2x, p2y, x, y) == -area2(p1x, p1y, p2x, p2y, x, y),
{
    assert(edge(p1x, p1y, p2x, p2y, x, y) == -area2(p1x, p1y, p2x, p2y, x, y))
        by (nonlinear_arith);
}

/// The edge function vanishes at both endpoints of its edge.
pub proof fn lemma_edge_at_endpoints(p1x: int, p1y: int, p2x: int, p2y: int)
    ensures
        edge(p1x, p1y, p2x, p2y, p1x, p1y) == 0,
        edge(p1x, p1y, p2x, p2y, p2x, p2y) == 0,
{
    assert(edge(p1x, p1y, p2x, p2y, p1x, p1y) == 0) by (nonlinear_arith);
    assert(edge(p1x, p1y, p2x, p2y, p2x, p2y) == 0) by (nonlinear_arith);
}

/// The signed doubled area is invariant under cyclic rotation of the vertices.
pub proof fn lemma_area2_cyclic(ax: int, ay: int, bx: int, by: int, cx: int, cy: int)
    ensures
        area2(ax, ay, bx, by, cx, cy) == area2(bx, by, cx, cy, ax, ay),
{
    assert(area2(ax, ay, bx, by, cx, cy) == area2(bx, by, cx, cy, ax, ay)) by (nonlinear_arith);
}

} // verus!
