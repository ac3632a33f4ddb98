//! The projector: composes a perspective matrix with a camera matrix into one
//! clip transform, carries triangle vertices through it, and maps camera-space
//! coordinates to integer screen coordinates.
//!
//! Conventions, fixed here for the whole pipeline:
//! - The homogeneous transform keeps only `x`, `y`, `z` of the product; the
//!   perspective divide divides by the vertex's camera-space `z` directly.
//!   Vertices at or behind the camera (`z <= 0`) are never divided: the
//!   rasterizer discards any triangle with such a vertex before the divide.
//! - Normalized device coordinates are fixed point; they are saturated at
//!   [`NDC_LIMIT`](crate::math::NDC_LIMIT) so that far off-screen vertices
//!   still yield exact, bounded screen coordinates.
//! - Screen mapping rounds `dim * (ndc + 1) / 2` to the nearest integer.
//!   There is no vertical flip: NDC `y = -1` maps to row `0`, the top row,
//!   matching the quantizer's top-to-bottom row order.

use vstd::prelude::*;
use crate::math::{Mat4, Pt2, Triangle, Vec3};
use crate::math::{FB_DIM_LIMIT, MAT_LIMIT, NDC_LIMIT, SCALE, SCREEN_LIMIT, VIEW_LIMIT, WORLD_LIMIT};
use crate::math::{clamp_i64, clamp_spec, lemma_div_range, lemma_mul_bound};

verus! {

/// The flat intensity given to every projected triangle.
pub const WHITE: u8 = 255;

/// A triangle carried into camera/clip space, paired with its flat color.
#[derive(Clone, Copy, PartialEq, Eq, Structural, Debug)]
pub struct ProjectedTriangle {
    pub triangle: Triangle,
    pub color: u8,
}

/// One row of the homogeneous transform applied to the vertex `(x, y, z, 1)`,
/// rescaled back into fixed point by the floor division.
pub open spec fn row_apply_spec(a0: i64, a1: i64, a2: i64, a3: i64, v: Vec3) -> int {
    (a0 * v.x + a1 * v.y + a2 * v.z + a3 * SCALE) / (SCALE as int)
}

/// The vertex `v`, extended to homogeneous form, multiplied by `m`, truncated
/// back to its first three components.
pub open spec fn xform_vec_spec(m: Mat4, v: Vec3) -> Vec3 {
    Vec3 {
        x: row_apply_spec(m.m00, m.m01, m.m02, m.m03, v) as i64,
        y: row_apply_spec(m.m10, m.m11, m.m12, m.m13, v) as i64,
        z: row_apply_spec(m.m20, m.m21, m.m22, m.m23, v) as i64,
    }
}

/// All three vertices of `t` carried through `m`.
pub open spec fn xform_tri_spec(m: Mat4, t: Triangle) -> Triangle {
    Triangle {
        v0: xform_vec_spec(m, t.v0),
        v1: xform_vec_spec(m, t.v1),
        v2: xform_vec_spec(m, t.v2),
    }
}

/// Every triangle of `tris` carried through `m` and paired with the flat
/// white color.
pub open spec fn project_all_spec(m: Mat4, tris: Seq<Triangle>) -> Seq<ProjectedTriangle> {
    tris.map(|i: int, t: Triangle| ProjectedTriangle { triangle: xform_tri_spec(m, t), color: WHITE })
}

/// One entry of the fixed-point matrix product.
pub open spec fn mat_mul_entry(a0: i64, a1: i64, a2: i64, a3: i64, b0: i64, b1: i64, b2: i64, b3: i64) -> int {
    (a0 * b0 + a1 * b1 + a2 * b2 + a3 * b3) / (SCALE as int)
}

/// The fixed-point matrix product `a * b`, row major.
pub open spec fn mat_mul_spec(a: Mat4, b: Mat4) -> Mat4 {
    Mat4 {
        m00: mat_mul_entry(a.m00, a.m01, a.m02, a.m03, b.m00, b.m10, b.m20, b.m30) as i64,
        m01: mat_mul_entry(a.m00, a.m01, a.m02, a.m03, b.m01, b.m11, b.m21, b.m31) as i64,
        m02: mat_mul_entry(a.m00, a.m01, a.m02, a.m03, b.m02, b.m12, b.m22, b.m32) as i64,
        m03: mat_mul_entry(a.m00, a.m01, a.m02, a.m03, b.m03, b.m13, b.m23, b.m33) as i64,
        m10: mat_mul_entry(a.m10, a.m11, a.m12, a.m13, b.m00, b.m10, b.m20, b.m30) as i64,
        m11: mat_mul_entry(a.m10, a.m11, a.m12, a.m13, b.m01, b.m11, b.m21, b.m31) as i64,
        m12: mat_mul_entry(a.m10, a.m11, a.m12, a.m13, b.m02, b.m12, b.m22, b.m32) as i64,
        m13: mat_mul_entry(a.m10, a.m11, a.m12, a.m13, b.m03, b.m13, b.m23, b.m33) as i64,
        m20: mat_mul_entry(a.m20, a.m21, a.m22, a.m23, b.m00, b.m10, b.m20, b.m30) as i64,
        m21: mat_mul_entry(a.m20, a.m21, a.m22, a.m23, b.m01, b.m11, b.m21, b.m31) as i64,
        m22: mat_mul_entry(a.m20, a.m21, a.m22, a.m23, b.m02, b.m12, b.m22, b.m32) as i64,
        m23: mat_mul_entry(a.m20, a.m21, a.m22, a.m23, b.m03, b.m13, b.m23, b.m33) as i64,
        m30: mat_mul_entry(a.m30, a.m31, a.m32, a.m33, b.m00, b.m10, b.m20, b.m30) as i64,
        m31: mat_mul_entry(a.m30, a.m31, a.m32, a.m33, b.m01, b.m11, b.m21, b.m31) as i64,
        m32: mat_mul_entry(a.m30, a.m31, a.m32, a.m33, b.m02, b.m12, b.m22, b.m32) as i64,
        m33: mat_mul_entry(a.m30, a.m31, a.m32, a.m33, b.m03, b.m13, b.m23, b.m33) as i64,
    }
}

/// The perspective matrix for the given fixed-point focal lengths and clip
/// distances. The camera looks down positive `z` (the convention of the
/// whole pipeline, where the perspective divide is by `z` itself), so the
/// visible volume is `near <= z <= far` with both distances positive; the
/// depth row maps it into the unit range with the offset entry formed over
/// the positive denominator `far - near` and then negated, so all divisions
/// here floor a non-negative quantity.
pub open spec fn perspective_spec(focal_x: i64, focal_y: i64, near: i64, far: i64) -> Mat4 {
    Mat4 {
        m00: focal_x, m01: 0, m02: 0, m03: 0,
        m10: 0, m11: focal_y, m12: 0, m13: 0,
        m20: 0, m21: 0,
        m22: (((far + near) * SCALE) / (far - near)) as i64,
        m23: (-((2 * far * near) / (far - near))) as i64,
        m30: 0, m31: 0, m32: SCALE, m33: 0,
    }
}

/// The perspective divide of one fixed-point coordinate by the camera-space
/// depth `z`, saturated at [`NDC_LIMIT`].
pub open spec fn ndc_spec(coord: int, z: int) -> int {
    clamp_spec((coord * SCALE) / z, -NDC_LIMIT as int, NDC_LIMIT as int)
}

/// The screen coordinate of a fixed-point normalized device coordinate:
/// `dim * (ndc + 1) / 2`, rounded to the nearest integer.
pub open spec fn screen_coord_spec(nc: int, dim: int) -> int {
    (dim * (nc + SCALE) + SCALE) / (2 * SCALE)
}

/// Screen column of a camera-space vertex on a framebuffer `w` wide.
pub open spec fn screen_x_spec(v: Vec3, w: int) -> int {
    screen_coord_spec(ndc_spec(v.x as int, v.z as int), w)
}

/// Screen row of a camera-space vertex on a framebuffer `h` high.
pub open spec fn screen_y_spec(v: Vec3, h: int) -> int {
    screen_coord_spec(ndc_spec(v.y as int, v.z as int), h)
}

/// One row of the homogeneous transform, in executable fixed point.
fn row_apply(a0: i64, a1: i64, a2: i64, a3: i64, v: Vec3) -> (r: i64)
    requires
        -MAT_LIMIT <= a0 <= MAT_LIMIT,
        -MAT_LIMIT <= a1 <= MAT_LIMIT,
        -MAT_LIMIT <= a2 <= MAT_LIMIT,
        -MAT_LIMIT <= a3 <= MAT_LIMIT,
        v.in_range(WORLD_LIMIT as int),
    ensures
        r == row_apply_spec(a0, a1, a2, a3, v),
        -VIEW_LIMIT <= r <= VIEW_LIMIT,
{
    proof {
        lemma_mul_bound(a0 as int, v.x as int, MAT_LIMIT as int, WORLD_LIMIT as int);
        lemma_mul_bound(a1 as int, v.y as int, MAT_LIMIT as int, WORLD_LIMIT as int);
        lemma_mul_bound(a2 as int, v.z as int, MAT_LIMIT as int, WORLD_LIMIT as int);
        lemma_mul_bound(a3 as int, SCALE as int, MAT_LIMIT as int, SCALE as int);
    }
    let num: i64 = a0 * v.x + a1 * v.y + a2 * v.z + a3 * SCALE;
    proof {
        lemma_div_range(num as int, SCALE as int,
            3 * (MAT_LIMIT as int) * (WORLD_LIMIT as int) + (MAT_LIMIT as int) * (SCALE as int));
    }
    num.checked_div_euclid(SCALE).unwrap()
}

/// The vertex `v` carried through the transform `m`.
pub fn transform_vertex(m: &Mat4, v: Vec3) -> (r: Vec3)
    requires
        m.in_range(MAT_LIMIT as int),
        v.in_range(WORLD_LIMIT as int),
    ensures
        r == xform_vec_spec(*m, v),
        r.in_range(VIEW_LIMIT as int),
{
    Vec3 {
        x: row_apply(m.m00, m.m01, m.m02, m.m03, v),
        y: row_apply(m.m10, m.m11, m.m12, m.m13, v),
        z: row_apply(m.m20, m.m21, m.m22, m.m23, v),
    }
}

/// One entry of the matrix product, in executable fixed point.
fn mul_entry(a0: i64, a1: i64, a2: i64, a3: i64, b0: i64, b1: i64, b2: i64, b3: i64) -> (r: i64)
    requires
        -WORLD_LIMIT <= a0 <= WORLD_LIMIT,
        -WORLD_LIMIT <= a1 <= WORLD_LIMIT,
        -WORLD_LIMIT <= a2 <= WORLD_LIMIT,
        -WORLD_LIMIT <= a3 <= WORLD_LIMIT,
        -WORLD_LIMIT <= b0 <= WORLD_LIMIT,
        -WORLD_LIMIT <= b1 <= WORLD_LIMIT,
        -WORLD_LIMIT <= b2 <= WORLD_LIMIT,
        -WORLD_LIMIT <= b3 <= WORLD_LIMIT,
    ensures
        r == mat_mul_entry(a0, a1, a2, a3, b0, b1, b2, b3),
        -MAT_LIMIT <= r <= MAT_LIMIT,
{
    proof {
        lemma_mul_bound(a0 as int, b0 as int, WORLD_LIMIT as int, WORLD_LIMIT as int);
        lemma_mul_bound(a1 as int, b1 as int, WORLD_LIMIT as int, WORLD_LIMIT as int);
        lemma_mul_bound(a2 as int, b2 as int, WORLD_LIMIT as int, WORLD_LIMIT as int);
        lemma_mul_bound(a3 as int, b3 as int, WORLD_LIMIT as int, WORLD_LIMIT as int);
    }
    let num: i64 = a0 * b0 + a1 * b1 + a2 * b2 + a3 * b3;
    proof {
        lemma_div_range(num as int, SCALE as int, 4 * (WORLD_LIMIT as int) * (WORLD_LIMIT as int));
    }
    num.checked_div_euclid(SCALE).unwrap()
}

/// The fixed-point product `a * b` of two transforms whose entries are within
/// [`WORLD_LIMIT`].
pub fn mat4_mul(a: &Mat4, b: &Mat4) -> (r: Mat4)
    requires
        a.in_range(WORLD_LIMIT as int),
        b.in_range(WORLD_LIMIT as int),
    ensures
        r == mat_mul_spec(*a, *b),
        r.in_range(MAT_LIMIT as int),
{
    Mat4 {
        m00: mul_entry(a.m00, a.m01, a.m02, a.m03, b.m00, b.m10, b.m20, b.m30),
        m01: mul_entry(a.m00, a.m01, a.m02, a.m03, b.m01, b.m11, b.m21, b.m31),
        m02: mul_entry(a.m00, a.m01, a.m02, a.m03, b.m02, b.m12, b.m22, b.m32),
        m03: mul_entry(a.m00, a.m01, a.m02, a.m03, b.m03, b.m13, b.m23, b.m33),
        m10: mul_entry(a.m10, a.m11, a.m12, a.m13, b.m00, b.m10, b.m20, b.m30),
        m11: mul_entry(a.m10, a.m11, a.m12, a.m13, b.m01, b.m11, b.m21, b.m31),
        m12: mul_entry(a.m10, a.m11, a.m12, a.m13, b.m02, b.m12, b.m22, b.m32),
        m13: mul_entry(a.m10, a.m11, a.m12, a.m13, b.m03, b.m13, b.m23, b.m33),
        m20: mul_entry(a.m20, a.m21, a.m22, a.m23, b.m00, b.m10, b.m20, b.m30),
        m21: mul_entry(a.m20, a.m21, a.m22, a.m23, b.m01, b.m11, b.m21, b.m31),
        m22: mul_entry(a.m20, a.m21, a.m22, a.m23, b.m02, b.m12, b.m22, b.m32),
        m23: mul_entry(a.m20, a.m21, a.m22, a.m23, b.m03, b.m13, b.m23, b.m33),
        m30: mul_entry(a.m30, a.m31, a.m32, a.m33, b.m00, b.m10, b.m20, b.m30),
        m31: mul_entry(a.m30, a.m31, a.m32, a.m33, b.m01, b.m11, b.m21, b.m31),
        m32: mul_entry(a.m30, a.m31, a.m32, a.m33, b.m02, b.m12, b.m22, b.m32),
        m33: mul_entry(a.m30, a.m31, a.m32, a.m33, b.m03, b.m13, b.m23, b.m33),
    }
}

/// Builds the perspective matrix. The aspect ratio is expressed by giving the
/// horizontal and vertical focal lengths separately; the focal length is the
/// fixed-point reciprocal of the tangent of half the field of view, so a
/// field of view of 90 degrees has focal length [`SCALE`].
pub fn perspective_matrix(focal_x: i64, focal_y: i64, near: i64, far: i64) -> (r: Mat4)
    requires
        0 < focal_x <= WORLD_LIMIT,
        0 < focal_y <= WORLD_LIMIT,
        0 < near < far <= WORLD_LIMIT,
        (far + near) * SCALE <= (far - near) * WORLD_LIMIT,
        2 * far * near <= (far - near) * WORLD_LIMIT,
    ensures
        r == perspective_spec(focal_x, focal_y, near, far),
        r.in_range(WORLD_LIMIT as int),
{
    let span: i64 = far - near;
    proof {
        lemma_mul_bound((far + near) as int, SCALE as int, 2 * WORLD_LIMIT as int, SCALE as int);
        lemma_mul_bound(far as int, near as int, WORLD_LIMIT as int, WORLD_LIMIT as int);
        lemma_div_range(((far + near) * SCALE) as int, span as int, (span * WORLD_LIMIT) as int);
        lemma_div_range((2 * far * near) as int, span as int, (span * WORLD_LIMIT) as int);
        lemma_mul_div_cancel_bound((far + near) * SCALE as int, span as int, WORLD_LIMIT as int);
        lemma_mul_div_cancel_bound(2 * (far as int) * (near as int), span as int, WORLD_LIMIT as int);
    }
    let depth_scale: i64 = ((far + near) * SCALE).checked_div_euclid(span).unwrap();
    let depth_offset: i64 = (2 * far * near).checked_div_euclid(span).unwrap();
    Mat4 {
        m00: focal_x, m01: 0, m02: 0, m03: 0,
        m10: 0, m11: focal_y, m12: 0, m13: 0,
        m20: 0, m21: 0, m22: depth_scale, m23: -depth_offset,
        m30: 0, m31: 0, m32: SCALE, m33: 0,
    }
}

/// A non-negative quantity at most `d * b` keeps its quotient by `d` at
/// most `b`.
proof fn lemma_mul_div_cancel_bound(x: int, d: int, b: int)
    requires
        d >= 1,
        0 <= x,
        x <= d * b,
    ensures
        0 <= x / d <= b,
{
    assert(0 <= x / d <= b) by (nonlinear_arith)
        requires
            d >= 1,
            0 <= x,
            x <= d * b,
    ;
}

/// The perspective divide of one camera-space vertex: its saturated
/// fixed-point normalized device coordinates.
pub fn project_vertex(v: Vec3) -> (r: Pt2)
    requires
        v.in_range(VIEW_LIMIT as int),
        v.z >= 1,
    ensures
        r.x == ndc_spec(v.x as int, v.z as int),
        r.y == ndc_spec(v.y as int, v.z as int),
        -NDC_LIMIT <= r.x <= NDC_LIMIT,
        -NDC_LIMIT <= r.y <= NDC_LIMIT,
{
    proof {
        lemma_mul_bound(v.x as int, SCALE as int, VIEW_LIMIT as int, SCALE as int);
        lemma_mul_bound(v.y as int, SCALE as int, VIEW_LIMIT as int, SCALE as int);
        lemma_div_range((v.x * SCALE) as int, v.z as int, (VIEW_LIMIT as int) * (SCALE as int));
        lemma_div_range((v.y * SCALE) as int, v.z as int, (VIEW_LIMIT as int) * (SCALE as int));
    }
    let qx: i64 = (v.x * SCALE).checked_div_euclid(v.z).unwrap();
    let qy: i64 = (v.y * SCALE).checked_div_euclid(v.z).unwrap();
    Pt2 { x: clamp_i64(qx, -NDC_LIMIT, NDC_LIMIT), y: clamp_i64(qy, -NDC_LIMIT, NDC_LIMIT) }
}

/// Maps a fixed-point normalized device coordinate pair to integer screen
/// coordinates for the given resolution.
pub fn nc_to_screen(nc: Pt2, res_height: usize, res_width: usize) -> (r: Pt2)
    requires
        1 <= res_width <= FB_DIM_LIMIT,
        1 <= res_height <= FB_DIM_LIMIT,
        -NDC_LIMIT <= nc.x <= NDC_LIMIT,
        -NDC_LIMIT <= nc.y <= NDC_LIMIT,
    ensures
        r.x == screen_coord_spec(nc.x as int, res_width as int),
        r.y == screen_coord_spec(nc.y as int, res_height as int),
        -SCREEN_LIMIT <= r.x <= SCREEN_LIMIT,
        -SCREEN_LIMIT <= r.y <= SCREEN_LIMIT,
{
    proof {
        lemma_mul_bound(res_width as int, (nc.x + SCALE) as int, FB_DIM_LIMIT as int,
            (NDC_LIMIT + SCALE) as int);
        lemma_mul_bound(res_height as int, (nc.y + SCALE) as int, FB_DIM_LIMIT as int,
            (NDC_LIMIT + SCALE) as int);
        lemma_div_range(((res_width as i64) * (nc.x + SCALE) + SCALE) as int, 2 * SCALE as int,
            (FB_DIM_LIMIT as int) * ((NDC_LIMIT + SCALE) as int) + SCALE as int);
        lemma_div_range(((res_height as i64) * (nc.y + SCALE) + SCALE) as int, 2 * SCALE as int,
            (FB_DIM_LIMIT as int) * ((NDC_LIMIT + SCALE) as int) + SCALE as int);
    }
    let sx: i64 = ((res_width as i64) * (nc.x + SCALE) + SCALE).checked_div_euclid(2 * SCALE).unwrap();
    let sy: i64 = ((res_height as i64) * (nc.y + SCALE) + SCALE).checked_div_euclid(2 * SCALE).unwrap();
    Pt2 { x: sx, y: sy }
}

/// Carries every input triangle through the combined camera transform,
/// pairing each with the flat white color.
pub fn vertex_step(input_vtxs: &Vec<Triangle>, cam_mat: &Mat4) -> (res: Vec<ProjectedTriangle>)
    requires
        cam_mat.in_range(MAT_LIMIT as int),
        forall|i: int| 0 <= i < input_vtxs@.len() ==> (#[trigger] input_vtxs@[i]).in_range(WORLD_LIMIT as int),
    ensures
        res@ == project_all_spec(*cam_mat, input_vtxs@),
        forall|i: int| 0 <= i < res@.len() ==> (#[trigger] res@[i]).triangle.in_range(VIEW_LIMIT as int),
{
    let mut res: Vec<ProjectedTriangle> = Vec::new();
    let n = input_vtxs.len();
    let mut i: usize = 0;
    while i < n
        invariant
            n == input_vtxs@.len(),
            i <= n,
            cam_mat.in_range(MAT_LIMIT as int),
            forall|j: int| 0 <= j < n ==> (#[trigger] input_vtxs@[j]).in_range(WORLD_LIMIT as int),
            res@.len() == i,
            forall|j: int| 0 <= j < i ==> #[trigger] res@[j] == (ProjectedTriangle {
                triangle: xform_tri_spec(*cam_mat, input_vtxs@[j]),
                color: WHITE,
            }),
            forall|j: int| 0 <= j < i ==> (#[trigger] res@[j]).triangle.in_range(VIEW_LIMIT as int),
        decreases n - i,
    {
        let tri = &input_vtxs[i];
        let out = ProjectedTriangle {
            triangle: Triangle {
                v0: transform_vertex(cam_mat, tri.v0),
                v1: transform_vertex(cam_mat, tri.v1),
                v2: transform_vertex(cam_mat, tri.v2),
            },
            color: WHITE,
        };
        res.push(out);
        i = i + 1;
    }
    proof {
        assert(res@ =~= project_all_spec(*cam_mat, input_vtxs@));
    }
    res
}

} // verus!
