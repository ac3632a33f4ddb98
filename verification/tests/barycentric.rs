use termraster::barycentric::{barycentric, BaryWeights};
use termraster::math::Pt2;

fn pt(x: i64, y: i64) -> Pt2 {
    Pt2 { x, y }
}

#[test]
fn weights_sum_to_denominator_inside() {
    let a = pt(0, 0);
    let b = pt(4, 0);
    let c = pt(0, 4);
    let w = barycentric(pt(1, 1), a, b, c);
    assert_eq!(w.den, 16);
    assert_eq!(w.wa, 8);
    assert_eq!(w.wb, 4);
    assert_eq!(w.wc, 4);
    assert_eq!(w.wa + w.wb + w.wc, w.den);
}

#[test]
fn weights_sum_to_denominator_outside() {
    // The signed weights still sum to the denominator for a point outside.
    let a = pt(0, 0);
    let b = pt(4, 0);
    let c = pt(0, 4);
    let w = barycentric(pt(10, 10), a, b, c);
    assert_eq!(w.den, 16);
    assert_eq!(w.wa + w.wb + w.wc, w.den);
}

#[test]
fn vertex_recovers_unit_weight() {
    let a = pt(3, 7);
    let b = pt(9, 2);
    let c = pt(5, 11);
    let at_a = barycentric(a, a, b, c);
    assert_eq!(at_a.wa, at_a.den);
    assert_eq!(at_a.wb, 0);
    assert_eq!(at_a.wc, 0);
    let at_b = barycentric(b, a, b, c);
    assert_eq!(at_b.wb, at_b.den);
    assert_eq!(at_b.wa, 0);
    assert_eq!(at_b.wc, 0);
    let at_c = barycentric(c, a, b, c);
    assert_eq!(at_c.wc, at_c.den);
    assert_eq!(at_c.wa, 0);
    assert_eq!(at_c.wb, 0);
}

#[test]
fn degenerate_collinear_returns_sentinel() {
    let a = pt(0, 0);
    let b = pt(1, 1);
    let c = pt(2, 2);
    for p in [pt(0, 0), pt(5, -3), pt(1, 1)] {
        let w = barycentric(p, a, b, c);
        assert_eq!(w, BaryWeights { wa: 0, wb: 0, wc: 0, den: 0 });
    }
}

#[test]
fn degenerate_coincident_returns_sentinel() {
    let a = pt(2, 2);
    let w = barycentric(pt(7, -1), a, a, a);
    assert_eq!(w, BaryWeights { wa: 0, wb: 0, wc: 0, den: 0 });
}
