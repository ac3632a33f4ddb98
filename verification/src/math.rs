//! Fixed-point scalars, vectors, matrices and triangles.
//!
//! Every real-valued quantity of the pipeline is carried as a signed 16.16
//! fixed-point integer: the `i64` value `v` stands for the real number
//! `v / 65536`. The constant `1.0` is therefore [`SCALE`].

use vstd::prelude::*;

verus! {

/// The fixed-point unit: the integer standing for the real value `1.0`.
pub const SCALE: i64 = 65536;

/// Bound on the magnitude of entries of a composed transform; keeps 4-term
/// dot products with vertex coordinates inside `i64`.
pub const MAT_LIMIT: i64 = 0x8000_0000;

/// Bound on the magnitude of matrix entries and vertex coordinates handed to
/// the whole pipeline (`64.0` in fixed point); keeps every product of the
/// projector and rasterizer inside `i64`.
pub const WORLD_LIMIT: i64 = 0x40_0000;

/// Bound on the magnitude of camera-space coordinates after the vertex
/// transform, implied by [`MAT_LIMIT`] and [`WORLD_LIMIT`].
pub const VIEW_LIMIT: i64 = 0x100_0000_0000;

/// Bound on the magnitude of normalized device coordinates (`1024.0` in fixed
/// point). Coordinates beyond it are saturated, so far off-screen vertices
/// keep screen coordinates small enough for exact edge tests.
pub const NDC_LIMIT: i64 = 0x400_0000;

/// Bound on the magnitude of integer screen coordinates, implied by
/// [`NDC_LIMIT`] and [`FB_DIM_LIMIT`].
pub const SCREEN_LIMIT: i64 = 0x200_0000;

/// Largest accepted framebuffer width or height.
pub const FB_DIM_LIMIT: usize = 16384;

/// A 3-component fixed-point vector.
#[derive(Clone, Copy, PartialEq, Eq, Structural, Debug)]
pub struct Vec3 {
    pub x: i64,
    pub y: i64,
    pub z: i64,
}

/// A 2-component integer point (screen coordinates, or a fixed-point pair).
#[derive(Clone, Copy, PartialEq, Eq, Structural, Debug)]
pub struct Pt2 {
    pub x: i64,
    pub y: i64,
}

/// A triangle: exactly three vertices, in whatever coordinate space the
/// pipeline stage at hand implies.
#[derive(Clone, Copy, PartialEq, Eq, Structural, Debug)]
pub struct Triangle {
    pub v0: Vec3,
    pub v1: Vec3,
    pub v2: Vec3,
}

impl Vec3 {
    pub fn new(x: i64, y: i64, z: i64) -> (r: Vec3)
        ensures
            r == (Vec3 { x, y, z }),
    {
        Vec3 { x, y, z }
    }
}

impl Triangle {
    pub fn new(v1: Vec3, v2: Vec3, v3: Vec3) -> (r: Triangle)
        ensures
            r == (Triangle { v0: v1, v1: v2, v2: v3 }),
    {
        Triangle { v0: v1, v1: v2, v2: v3 }
    }
}

/// A 4x4 fixed-point matrix, row major: `mRC` is row `R`, column `C`.
#[derive(Clone, Copy, PartialEq, Eq, Structural, Debug)]
pub struct Mat4 {
    pub m00: i64, pub m01: i64, pub m02: i64, pub m03: i64,
    pub m10: i64, pub m11: i64, pub m12: i64, pub m13: i64,
    pub m20: i64, pub m21: i64, pub m22: i64, pub m23: i64,
    pub m30: i64, pub m31: i64, pub m32: i64, pub m33: i64,
}

impl Mat4 {
    /// The identity transform: `1.0` on the diagonal, `0` elsewhere.
    pub fn identity() -> (r: Mat4)
        ensures
            r == Mat4::identity_spec(),
    {
        Mat4 {
            m00: SCALE, m01: 0, m02: 0, m03: 0,
            m10: 0, m11: SCALE, m12: 0, m13: 0,
            m20: 0, m21: 0, m22: SCALE, m23: 0,
            m30: 0, m31: 0, m32: 0, m33: SCALE,
        }
    }

    pub open spec fn identity_spec() -> Mat4 {
        Mat4 {
            m00: SCALE, m01: 0, m02: 0, m03: 0,
            m10: 0, m11: SCALE, m12: 0, m13: 0,
            m20: 0, m21: 0, m22: SCALE, m23: 0,
            m30: 0, m31: 0, m32: 0, m33: SCALE,
        }
    }

    /// Every entry has magnitude at most `b`.
    pub open spec fn in_range(self, b: int) -> bool {
        &&& -b <= self.m00 <= b && -b <= self.m01 <= b && -b <= self.m02 <= b && -b <= self.m03 <= b
        &&& -b <= self.m10 <= b && -b <= self.m11 <= b && -b <= self.m12 <= b && -b <= self.m13 <= b
        &&& -b <= self.m20 <= b && -b <= self.m21 <= b && -b <= self.m22 <= b && -b <= self.m23 <= b
        &&& -b <= self.m30 <= b && -b <= self.m31 <= b && -b <= self.m32 <= b && -b <= self.m33 <= b
    }
}

impl Vec3 {
    /// Every coordinate has magnitude at most `b`.
    pub open spec fn in_range(self, b: int) -> bool {
        &&& -b <= self.x <= b
        &&& -b <= self.y <= b
        &&& -b <= self.z <= b
    }
}

impl Triangle {
    /// Every coordinate of every vertex has magnitude at most `b`.
    pub open spec fn in_range(self, b: int) -> bool {
        self.v0.in_range(b) && self.v1.in_range(b) && self.v2.in_range(b)
    }
}

/// A product of bounded factors is bounded by the product of the bounds.
pub proof fn lemma_mul_bound(x: int, y: int, bx: int, by: int)
    requires
        -bx <= x <= bx,
        -by <= y <= by,
        0 <= bx,
        0 <= by,
    ensures
        -(bx * by) <= x * y <= bx * by,
{
    assert(-(bx * by) <= x * y <= bx * by) by (nonlinear_arith)
        requires
            -bx <= x <= bx,
            -by <= y <= by,
            0 <= bx,
            0 <= by,
    ;
}

/// The quotient of a bounded dividend by a positive divisor is bounded by the
/// quotient of the bound, up to the one-off of flooring a negative dividend.
pub proof fn lemma_div_range(x: int, d: int, b: int)
    requires
        d >= 1,
        0 <= b,
        -b <= x <= b,
    ensures
        -(b / d) - 1 <= x / d <= b / d,
{
    assert(-(b / d) - 1 <= x / d <= b / d) by (nonlinear_arith)
        requires
            d >= 1,
            0 <= b,
            -b <= x <= b,
    ;
}

/// `v` forced into the closed interval `[lo, hi]`.
pub open spec fn clamp_spec(v: int, lo: int, hi: int) -> int {
    if v < lo {
        lo
    } else if v > hi {
        hi
    } else {
        v
    }
}

/// Exec counterpart of [`clamp_spec`].
pub fn clamp_i64(v: i64, lo: i64, hi: i64) -> (r: i64)
    requires
        lo <= hi,
    ensures
        r == clamp_spec(v as int, lo as int, hi as int),
{
    if v < lo {
        lo
    } else if v > hi {
        hi
    } else {
        v
    }
}

} // verus!
