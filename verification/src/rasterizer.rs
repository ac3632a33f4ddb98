//! The rasterizer: converts projected triangles to screen-space pixels,
//! performs the inside-triangle test, resolves visibility through a depth
//! buffer, and writes a grayscale framebuffer.
//!
//! Conventions, fixed here:
//! - Pixels are indexed row major: pixel `(x, y)` lives at `y * width + x`,
//!   row `0` at the top.
//! - The near-plane guard is uniform: a triangle with any vertex at or behind
//!   the camera (`z < 1` in fixed point) is discarded before the perspective
//!   divide, as is a triangle whose projected screen points are collinear or
//!   coincident (zero doubled area).
//! - A triangle's depth is flat: the arithmetic mean of its three
//!   camera-space `z` values, not interpolated per pixel.
//! - Triangle membership is the inclusive three-edge test: the pixel passes
//!   when all three edge functions are at least `0`, which paints triangles
//!   whose screen points have negative doubled signed area (the raster axes
//!   put `y` downward) and leaves the opposite winding blank.
//! - A pixel is repainted only when the incoming depth is strictly smaller
//!   than the stored one, so for unequal depths the nearer triangle wins in
//!   either submission order, and for equal depths the first one drawn wins.

use vstd::prelude::*;
use crate::barycentric::{area2, barycentric, edge};
use crate::math::Pt2;
use crate::math::{FB_DIM_LIMIT, SCREEN_LIMIT, VIEW_LIMIT};
use crate::math::{clamp_i64, clamp_spec, lemma_mul_bound};
use crate::projector::{ProjectedTriangle, nc_to_screen, project_vertex, screen_x_spec, screen_y_spec};

verus! {

/// A dense grayscale pixel grid, one byte per pixel, row major.
#[derive(Debug)]
pub struct Framebuffer {
    pub width: usize,
    pub height: usize,
    pub data: Vec<u8>,
}

impl Framebuffer {
    /// Well-formed: bounded dimensions and exactly one byte per pixel.
    pub open spec fn wf(self) -> bool {
        &&& 1 <= self.width <= FB_DIM_LIMIT
        &&& 1 <= self.height <= FB_DIM_LIMIT
        &&& self.data@.len() == self.width * self.height
    }

    /// A fresh all-zero framebuffer.
    pub fn new(width: usize, height: usize) -> (r: Framebuffer)
        requires
            1 <= width <= FB_DIM_LIMIT,
            1 <= height <= FB_DIM_LIMIT,
        ensures
            r.wf(),
            r.width == width,
            r.height == height,
            r.data@ =~= Seq::new((width * height) as nat, |i: int| 0u8),
    {
        proof {
            lemma_mul_bound(width as int, height as int, FB_DIM_LIMIT as int, FB_DIM_LIMIT as int);
        }
        let n = width * height;
        let mut data: Vec<u8> = Vec::new();
        while data.len() < n
            invariant
                n == width * height,
                data@.len() <= n,
                forall|i: int| 0 <= i < data@.len() ==> data@[i] == 0u8,
            decreases n - data@.len(),
        {
            data.push(0u8);
        }
        Framebuffer { width, height, data }
    }
}

/// The smallest of three values.
pub open spec fn min3(a: int, b: int, c: int) -> int {
    if a <= b && a <= c {
        a
    } else if b <= c {
        b
    } else {
        c
    }
}

/// The largest of three values.
pub open spec fn max3(a: int, b: int, c: int) -> int {
    if a >= b && a >= c {
        a
    } else if b >= c {
        b
    } else {
        c
    }
}

/// Exec counterpart of [`min3`].
pub fn min3_i64(a: i64, b: i64, c: i64) -> (r: i64)
    ensures
        r == min3(a as int, b as int, c as int),
{
    if a <= b && a <= c {
        a
    } else if b <= c {
        b
    } else {
        c
    }
}

/// Exec counterpart of [`max3`].
pub fn max3_i64(a: i64, b: i64, c: i64) -> (r: i64)
    ensures
        r == max3(a as int, b as int, c as int),
{
    if a >= b && a >= c {
        a
    } else if b >= c {
        b
    } else {
        c
    }
}

/// A triangle the rasterizer accepts: camera-space coordinates bounded by
/// [`VIEW_LIMIT`], as the projector guarantees.
pub open spec fn prim_ok(t: ProjectedTriangle) -> bool {
    t.triangle.in_range(VIEW_LIMIT as int)
}

/// All vertices strictly in front of the camera: the uniform near-plane guard.
pub open spec fn visible(t: ProjectedTriangle) -> bool {
    &&& t.triangle.v0.z >= 1
    &&& t.triangle.v1.z >= 1
    &&& t.triangle.v2.z >= 1
}

/// The flat depth of a triangle: the mean of its camera-space `z` values.
pub open spec fn tri_depth(t: ProjectedTriangle) -> int {
    (t.triangle.v0.z + t.triangle.v1.z + t.triangle.v2.z) / 3
}

/// Screen column of vertex 0 on a framebuffer `w` wide; and so on below.
pub open spec fn sx0(t: ProjectedTriangle, w: int) -> int {
    screen_x_spec(t.triangle.v0, w)
}

pub open spec fn sy0(t: ProjectedTriangle, h: int) -> int {
    screen_y_spec(t.triangle.v0, h)
}

pub open spec fn sx1(t: ProjectedTriangle, w: int) -> int {
    screen_x_spec(t.triangle.v1, w)
}

pub open spec fn sy1(t: ProjectedTriangle, h: int) -> int {
    screen_y_spec(t.triangle.v1, h)
}

pub open spec fn sx2(t: ProjectedTriangle, w: int) -> int {
    screen_x_spec(t.triangle.v2, w)
}

pub open spec fn sy2(t: ProjectedTriangle, h: int) -> int {
    screen_y_spec(t.triangle.v2, h)
}

/// The screen-space bounding box of `t`, clamped to the framebuffer: the
/// left, right, top and bottom pixel bounds, all inclusive.
pub open spec fn bbox_left(t: ProjectedTriangle, w: int) -> int {
    clamp_spec(min3(sx0(t, w), sx1(t, w), sx2(t, w)), 0, w - 1)
}

pub open spec fn bbox_right(t: ProjectedTriangle, w: int) -> int {
    clamp_spec(max3(sx0(t, w), sx1(t, w), sx2(t, w)), 0, w - 1)
}

pub open spec fn bbox_top(t: ProjectedTriangle, h: int) -> int {
    clamp_spec(min3(sy0(t, h), sy1(t, h), sy2(t, h)), 0, h - 1)
}

pub open spec fn bbox_bottom(t: ProjectedTriangle, h: int) -> int {
    clamp_spec(max3(sy0(t, h), sy1(t, h), sy2(t, h)), 0, h - 1)
}

/// Whether the rasterizer paints pixel `(x, y)` of a `w` by `h` framebuffer
/// for triangle `t`, before the depth test: the triangle passes the
/// near-plane and degeneracy guards, the pixel lies in the clamped bounding
/// box, and all three inclusive edge tests hold.
pub open spec fn covers(t: ProjectedTriangle, w: int, h: int, x: int, y: int) -> bool {
    &&& visible(t)
    &&& area2(sx0(t, w), sy0(t, h), sx1(t, w), sy1(t, h), sx2(t, w), sy2(t, h)) != 0
    &&& bbox_left(t, w) <= x <= bbox_right(t, w)
    &&& bbox_top(t, h) <= y <= bbox_bottom(t, h)
    &&& edge(sx0(t, w), sy0(t, h), sx1(t, w), sy1(t, h), x, y) >= 0
    &&& edge(sx1(t, w), sy1(t, h), sx2(t, w), sy2(t, h), x, y) >= 0
    &&& edge(sx2(t, w), sy2(t, h), sx0(t, w), sy0(t, h), x, y) >= 0
}

/// The color a pixel holds after triangle `t` is drawn over a pixel that
/// held color `c` at stored depth `d`.
pub open spec fn pixel_color_after(t: ProjectedTriangle, w: int, h: int, x: int, y: int, c: u8, d: i64) -> u8 {
    if covers(t, w, h, x, y) && tri_depth(t) < d {
        t.color
    } else {
        c
    }
}

/// The depth a pixel records after triangle `t` is drawn, likewise.
pub open spec fn pixel_depth_after(t: ProjectedTriangle, w: int, h: int, x: int, y: int, c: u8, d: i64) -> i64 {
    if covers(t, w, h, x, y) && tri_depth(t) < d {
        tri_depth(t) as i64
    } else {
        d
    }
}

/// The color pixel `i` (row major) holds after triangle `t` is drawn over
/// the buffers `data0`, `depth0`.
pub open spec fn pca(t: ProjectedTriangle, w: int, h: int, i: int, data0: Seq<u8>, depth0: Seq<i64>) -> u8 {
    pixel_color_after(t, w, h, i % w, i / w, data0[i], depth0[i])
}

/// The depth pixel `i` (row major) records after triangle `t` is drawn over
/// the buffers `data0`, `depth0`.
pub open spec fn pda(t: ProjectedTriangle, w: int, h: int, i: int, data0: Seq<u8>, depth0: Seq<i64>) -> i64 {
    pixel_depth_after(t, w, h, i % w, i / w, data0[i], depth0[i])
}

/// The framebuffer and depth buffer after drawing `prims` in order onto a
/// fresh frame: all-zero intensity, all depths at the `i64` maximum standing
/// for infinity.
pub open spec fn raster_after(prims: Seq<ProjectedTriangle>, w: int, h: int) -> (Seq<u8>, Seq<i64>)
    decreases prims.len(),
{
    if prims.len() == 0 {
        (Seq::new((w * h) as nat, |i: int| 0u8), Seq::new((w * h) as nat, |i: int| i64::MAX))
    } else {
        let prev = raster_after(prims.drop_last(), w, h);
        let t = prims.last();
        (
            Seq::new((w * h) as nat, |i: int| pca(t, w, h, i, prev.0, prev.1)),
            Seq::new((w * h) as nat, |i: int| pda(t, w, h, i, prev.0, prev.1)),
        )
    }
}

/// Pixel `(x, y)` of a row-major grid `w` wide lives at index `y * w + x`,
/// and that index decomposes back into the same row and column.
proof fn lemma_rowmajor(w: int, x: int, y: int)
    requires
        0 < w,
        0 <= x < w,
        0 <= y,
    ensures
        (y * w + x) / w == y,
        (y * w + x) % w == x,
{
    vstd::arithmetic::div_mod::lemma_fundamental_div_mod_converse(y * w + x, w, y, x);
}

/// A row-major index below `w * h` decomposes into a column below `w` and a
/// row below `h` that recompose to the index.
proof fn lemma_rowmajor_bounds(w: int, h: int, i: int)
    requires
        0 < w,
        0 < h,
        0 <= i < w * h,
    ensures
        0 <= i % w < w,
        0 <= i / w < h,
        i == (i / w) * w + i % w,
{
    vstd::arithmetic::div_mod::lemma_fundamental_div_mod(i, w);
    vstd::arithmetic::div_mod::lemma_remainder_lower(i, w);
    vstd::arithmetic::div_mod::lemma_remainder_upper(i, w);
    assert(0 <= i / w) by (nonlinear_arith)
        requires
            0 < w,
            0 <= i,
    ;
    assert(i / w < h) by (nonlinear_arith)
        requires
            0 < w,
            0 < h,
            i < w * h,
            i == (i / w) * w + i % w,
            0 <= i % w,
    ;
}

/// The per-frame accumulation state: the framebuffer being painted and the
/// parallel depth buffer. A fresh one is made for every frame, triangles are
/// drawn one by one, and [`Rasterizer::finish`] hands the frame out.
pub struct Rasterizer {
    pub fb: Framebuffer,
    pub depth: Vec<i64>,
}

impl Rasterizer {
    /// Well-formed: the framebuffer is, and the depth buffer runs parallel
    /// to it.
    pub open spec fn wf(self) -> bool {
        &&& self.fb.wf()
        &&& self.depth@.len() == self.fb.data@.len()
    }

    /// A fresh frame: all-zero intensity, every depth at the `i64` maximum
    /// standing for infinity.
    pub fn new(res_width: usize, res_height: usize) -> (r: Rasterizer)
        requires
            1 <= res_width <= FB_DIM_LIMIT,
            1 <= res_height <= FB_DIM_LIMIT,
        ensures
            r.wf(),
            r.fb.width == res_width,
            r.fb.height == res_height,
            r.fb.data@ == raster_after(Seq::empty(), res_width as int, res_height as int).0,
            r.depth@ == raster_after(Seq::empty(), res_width as int, res_height as int).1,
    {
        let fb = Framebuffer::new(res_width, res_height);
        let n = fb.data.len();
        let mut depth: Vec<i64> = Vec::new();
        while depth.len() < n
            invariant
                depth@.len() <= n,
                forall|i: int| 0 <= i < depth@.len() ==> depth@[i] == i64::MAX,
            decreases n - depth@.len(),
        {
            depth.push(i64::MAX);
        }
        proof {
            assert(fb.data@ =~= raster_after(Seq::empty(), res_width as int, res_height as int).0);
            assert(depth@ =~= raster_after(Seq::empty(), res_width as int, res_height as int).1);
        }
        Rasterizer { fb, depth }
    }

    /// Draws one projected triangle: every pixel of the clamped screen-space
    /// bounding box that passes the inclusive edge tests and whose stored
    /// depth is strictly farther takes the triangle's flat color and depth;
    /// every other pixel is untouched. Triangles failing the near-plane or
    /// degeneracy guard change nothing.
    #[verifier::loop_isolation(false)]
    #[verifier::rlimit(100)]
    pub fn draw_triangle(&mut self, prim: &ProjectedTriangle)
        requires
            old(self).wf(),
            prim_ok(*prim),
        ensures
            final(self).wf(),
            final(self).fb.width == old(self).fb.width,
            final(self).fb.height == old(self).fb.height,
            forall|i: int| 0 <= i < old(self).fb.data@.len()
                ==> (#[trigger] final(self).fb.data@[i]) == pca(*prim,
                    old(self).fb.width as int, old(self).fb.height as int, i,
                    old(self).fb.data@, old(self).depth@),
            forall|i: int| 0 <= i < old(self).fb.data@.len()
                ==> (#[trigger] final(self).depth@[i]) == pda(*prim,
                    old(self).fb.width as int, old(self).fb.height as int, i,
                    old(self).fb.data@, old(self).depth@),
    {
        let w = self.fb.width;
        let h = self.fb.height;
        let ghost wi = w as int;
        let ghost hi = h as int;
        let ghost data0 = self.fb.data@;
        let ghost depth0 = self.depth@;
        let ghost len = data0.len() as int;
        let v0 = prim.triangle.v0;
        let v1 = prim.triangle.v1;
        let v2 = prim.triangle.v2;

        // The uniform near-plane guard: discard before the divide.
        if !(v0.z >= 1 && v1.z >= 1 && v2.z >= 1) {
            return;
        }

        // Flat depth: the mean of the three camera-space z values.
        let zsum: i64 = v0.z + v1.z + v2.z;
        proof {
            crate::math::lemma_div_range(zsum as int, 3, 3 * VIEW_LIMIT as int);
        }
        let z: i64 = zsum.checked_div_euclid(3).unwrap();
        assert(z == tri_depth(*prim));

        // Perspective divide and screen mapping.
        let s0 = nc_to_screen(project_vertex(v0), h, w);
        let s1 = nc_to_screen(project_vertex(v1), h, w);
        let s2 = nc_to_screen(project_vertex(v2), h, w);
        assert(s0.x == sx0(*prim, wi) && s0.y == sy0(*prim, hi));
        assert(s1.x == sx1(*prim, wi) && s1.y == sy1(*prim, hi));
        assert(s2.x == sx2(*prim, wi) && s2.y == sy2(*prim, hi));

        // Degeneracy guard, through the barycentric evaluator.
        let bw = barycentric(s0, s0, s1, s2);
        if bw.den == 0 {
            assert(area2(sx0(*prim, wi), sy0(*prim, hi), sx1(*prim, wi), sy1(*prim, hi),
                sx2(*prim, wi), sy2(*prim, hi)) == 0);
            return;
        }
        assert(area2(sx0(*prim, wi), sy0(*prim, hi), sx1(*prim, wi), sy1(*prim, hi),
            sx2(*prim, wi), sy2(*prim, hi)) != 0);

        // Clamped bounding box, inclusive on all four sides.
        let x_min = clamp_i64(min3_i64(s0.x, s1.x, s2.x), 0, (w as i64) - 1) as usize;
        let x_max = clamp_i64(max3_i64(s0.x, s1.x, s2.x), 0, (w as i64) - 1) as usize;
        let y_min = clamp_i64(min3_i64(s0.y, s1.y, s2.y), 0, (h as i64) - 1) as usize;
        let y_max = clamp_i64(max3_i64(s0.y, s1.y, s2.y), 0, (h as i64) - 1) as usize;
        assert(x_min as int == bbox_left(*prim, wi));
        assert(x_max as int == bbox_right(*prim, wi));
        assert(y_min as int == bbox_top(*prim, hi));
        assert(y_max as int == bbox_bottom(*prim, hi));
        assert(x_min <= x_max < w);
        assert(y_min <= y_max < h);

        let mut y = y_min;
        while y <= y_max
            invariant
                y_min <= y <= y_max + 1,
                self.fb.width == w,
                self.fb.height == h,
                self.wf(),
                forall|i: int| 0 <= i < len && i / wi < y
                    ==> (#[trigger] self.fb.data@[i]) == pca(*prim, wi, hi, i, data0, depth0),
                forall|i: int| 0 <= i < len && i / wi < y
                    ==> (#[trigger] self.depth@[i]) == pda(*prim, wi, hi, i, data0, depth0),
                forall|i: int| 0 <= i < len && i / wi >= y
                    ==> (#[trigger] self.fb.data@[i]) == data0[i],
                forall|i: int| 0 <= i < len && i / wi >= y
                    ==> (#[trigger] self.depth@[i]) == depth0[i],
            decreases y_max + 1 - y,
        {
            proof {
                // Columns of row y left of the bounding box are outside it:
                // untouched pixels there already match the spec.
                assert forall|i: int| 0 <= i < len && (i / wi < y || (i / wi == y && i % wi < x_min))
                    implies (#[trigger] self.fb.data@[i]) == pca(*prim, wi, hi, i, data0, depth0) by {
                    lemma_rowmajor_bounds(wi, hi, i);
                }
                assert forall|i: int| 0 <= i < len && (i / wi < y || (i / wi == y && i % wi < x_min))
                    implies (#[trigger] self.depth@[i]) == pda(*prim, wi, hi, i, data0, depth0) by {
                    lemma_rowmajor_bounds(wi, hi, i);
                }
            }
            let mut x = x_min;
            while x <= x_max
                invariant
                    y_min <= y <= y_max,
                    x_min <= x <= x_max + 1,
                    self.fb.width == w,
                    self.fb.height == h,
                    self.wf(),
                    forall|i: int| 0 <= i < len && (i / wi < y || (i / wi == y && i % wi < x))
                        ==> (#[trigger] self.fb.data@[i]) == pca(*prim, wi, hi, i, data0, depth0),
                    forall|i: int| 0 <= i < len && (i / wi < y || (i / wi == y && i % wi < x))
                        ==> (#[trigger] self.depth@[i]) == pda(*prim, wi, hi, i, data0, depth0),
                    forall|i: int| 0 <= i < len && (i / wi > y || (i / wi == y && i % wi >= x))
                        ==> (#[trigger] self.fb.data@[i]) == data0[i],
                    forall|i: int| 0 <= i < len && (i / wi > y || (i / wi == y && i % wi >= x))
                        ==> (#[trigger] self.depth@[i]) == depth0[i],
                decreases x_max + 1 - x,
            {
                let ghost data_at = self.fb.data@;
                let ghost depth_at = self.depth@;
                proof {
                    lemma_mul_bound(y as int, wi, FB_DIM_LIMIT as int, FB_DIM_LIMIT as int);
                    lemma_rowmajor(wi, x as int, y as int);
                    assert(y * wi + x < wi * hi) by (nonlinear_arith)
                        requires
                            0 <= x < wi,
                            0 <= y < hi,
                    ;
                }
                let idx = y * w + x;
                if is_inside_triangle(s0, s1, s2, x as i64, y as i64) {
                    if z < self.depth[idx] {
                        assert(covers(*prim, wi, hi, x as int, y as int));
                        self.fb.data[idx] = prim.color;
                        self.depth[idx] = z;
                        assert(self.fb.data@ == data_at.update(idx as int, prim.color));
                        assert(self.depth@ == depth_at.update(idx as int, z));
                    } else {
                        assert(!(tri_depth(*prim) < depth_at[idx as int]));
                    }
                } else {
                    assert(!covers(*prim, wi, hi, x as int, y as int));
                }
                assert(self.fb.data@[idx as int] == pca(*prim, wi, hi, idx as int, data0, depth0));
                assert(self.depth@[idx as int] == pda(*prim, wi, hi, idx as int, data0, depth0));
                proof {
                    assert forall|i: int| 0 <= i < len
                        && (i / wi < y || (i / wi == y && i % wi < x + 1))
                        implies (#[trigger] self.fb.data@[i]) == pca(*prim, wi, hi, i, data0, depth0) by {
                        lemma_rowmajor_bounds(wi, hi, i);
                        if i / wi == y && i % wi == x {
                            assert(i == idx);
                        }
                    }
                    assert forall|i: int| 0 <= i < len
                        && (i / wi < y || (i / wi == y && i % wi < x + 1))
                        implies (#[trigger] self.depth@[i]) == pda(*prim, wi, hi, i, data0, depth0) by {
                        lemma_rowmajor_bounds(wi, hi, i);
                        if i / wi == y && i % wi == x {
                            assert(i == idx);
                        }
                    }
                }
                x = x + 1;
            }
            proof {
                // Columns of row y right of the bounding box are outside it:
                // untouched pixels there already match the spec.
                assert forall|i: int| 0 <= i < len && i / wi < y + 1
                    implies (#[trigger] self.fb.data@[i]) == pca(*prim, wi, hi, i, data0, depth0) by {
                    lemma_rowmajor_bounds(wi, hi, i);
                }
                assert forall|i: int| 0 <= i < len && i / wi < y + 1
                    implies (#[trigger] self.depth@[i]) == pda(*prim, wi, hi, i, data0, depth0) by {
                    lemma_rowmajor_bounds(wi, hi, i);
                }
            }
            y = y + 1;
        }
        proof {
            // Rows below the bounding box are outside it: untouched pixels
            // there already match the spec.
            assert forall|i: int| 0 <= i < len
                implies (#[trigger] self.fb.data@[i]) == pca(*prim, wi, hi, i, data0, depth0) by {
                lemma_rowmajor_bounds(wi, hi, i);
            }
            assert forall|i: int| 0 <= i < len
                implies (#[trigger] self.depth@[i]) == pda(*prim, wi, hi, i, data0, depth0) by {
                lemma_rowmajor_bounds(wi, hi, i);
            }
        }
    }

    /// Finalizes the frame: consumes the accumulation state and hands out
    /// the framebuffer; the depth buffer is discarded with it.
    pub fn finish(self) -> (r: Framebuffer)
        ensures
            r == self.fb,
    {
        self.fb
    }
}

/// Rasterizes the projected triangles in input order onto a fresh `res_width`
/// by `res_height` frame and returns the finished grayscale framebuffer.
#[verifier::loop_isolation(false)]
pub fn rasterize(prims: Vec<ProjectedTriangle>, res_height: usize, res_width: usize) -> (img: Framebuffer)
    requires
        1 <= res_width <= FB_DIM_LIMIT,
        1 <= res_height <= FB_DIM_LIMIT,
        forall|i: int| 0 <= i < prims@.len() ==> prim_ok(#[trigger] prims@[i]),
    ensures
        img.wf(),
        img.width == res_width,
        img.height == res_height,
        img.data@ == raster_after(prims@, res_width as int, res_height as int).0,
{
    let ghost wi = res_width as int;
    let ghost hi = res_height as int;
    let mut rast = Rasterizer::new(res_width, res_height);
    let mut i: usize = 0;
    while i < prims.len()
        invariant
            i <= prims@.len(),
            forall|j: int| 0 <= j < prims@.len() ==> prim_ok(#[trigger] prims@[j]),
            rast.wf(),
            rast.fb.width == res_width,
            rast.fb.height == res_height,
            1 <= res_width <= FB_DIM_LIMIT,
            1 <= res_height <= FB_DIM_LIMIT,
            rast.fb.data@ == raster_after(prims@.take(i as int), wi, hi).0,
            rast.depth@ == raster_after(prims@.take(i as int), wi, hi).1,
        decreases prims@.len() - i,
    {
        let ghost pre_data = rast.fb.data@;
        let ghost pre_depth = rast.depth@;
        rast.draw_triangle(&prims[i]);
        proof {
            let s = prims@.take(i as int + 1);
            assert(s.len() == i + 1);
            assert(s.drop_last() =~= prims@.take(i as int));
            assert(s.last() == prims@[i as int]);
            let prev = raster_after(prims@.take(i as int), wi, hi);
            assert(raster_after(s, wi, hi).0 == Seq::new((wi * hi) as nat,
                |k: int| pca(s.last(), wi, hi, k, prev.0, prev.1)));
            assert(raster_after(s, wi, hi).1 == Seq::new((wi * hi) as nat,
                |k: int| pda(s.last(), wi, hi, k, prev.0, prev.1)));
            assert(pre_data == prev.0 && pre_depth == prev.1);
            assert(pre_data.len() == wi * hi);
            assert forall|k: int| 0 <= k < wi * hi
                implies (#[trigger] rast.fb.data@[k]) == pca(s.last(), wi, hi, k, prev.0, prev.1) by {
                assert(rast.fb.data@[k] == pca(prims@[i as int], wi, hi, k, pre_data, pre_depth));
            }
            assert forall|k: int| 0 <= k < wi * hi
                implies (#[trigger] rast.depth@[k]) == pda(s.last(), wi, hi, k, prev.0, prev.1) by {
                assert(rast.depth@[k] == pda(prims@[i as int], wi, hi, k, pre_data, pre_depth));
            }
            assert(rast.fb.data@ =~= raster_after(s, wi, hi).0);
            assert(rast.depth@ =~= raster_after(s, wi, hi).1);
        }
        i = i + 1;
    }
    proof {
        assert(prims@.take(prims@.len() as int) =~= prims@);
    }
    rast.finish()
}

/// Depth resolution is order-independent for triangles of unequal depth:
/// drawing two overlapping triangles with different flat depths onto a fresh
/// frame in either order yields the same framebuffer and the same depth
/// buffer, because the strictly-nearer test lets the nearer one win both ways.
pub proof fn lemma_depth_order_independent(t1: ProjectedTriangle, t2: ProjectedTriangle, w: int, h: int)
    requires
        prim_ok(t1),
        prim_ok(t2),
        tri_depth(t1) != tri_depth(t2),
    ensures
        raster_after(seq![t1, t2], w, h).0 == raster_after(seq![t2, t1], w, h).0,
        raster_after(seq![t1, t2], w, h).1 == raster_after(seq![t2, t1], w, h).1,
{
    crate::math::lemma_div_range(
        t1.triangle.v0.z + t1.triangle.v1.z + t1.triangle.v2.z, 3, 3 * VIEW_LIMIT as int);
    crate::math::lemma_div_range(
        t2.triangle.v0.z + t2.triangle.v1.z + t2.triangle.v2.z, 3, 3 * VIEW_LIMIT as int);
    let e = Seq::<ProjectedTriangle>::empty();
    let a0 = raster_after(e, w, h);
    let a1 = raster_after(seq![t1], w, h);
    let a2 = raster_after(seq![t2], w, h);
    let a12 = raster_after(seq![t1, t2], w, h);
    let a21 = raster_after(seq![t2, t1], w, h);
    assert(seq![t1].drop_last() =~= e);
    assert(seq![t2].drop_last() =~= e);
    assert(seq![t1, t2].drop_last() =~= seq![t1]);
    assert(seq![t2, t1].drop_last() =~= seq![t2]);
    assert(seq![t1, t2].last() == t2);
    assert(seq![t2, t1].last() == t1);
    assert forall|k: int| 0 <= k < w * h implies a12.0[k] == a21.0[k] && a12.1[k] == a21.1[k] by {
        assert(a1.0[k] == pca(t1, w, h, k, a0.0, a0.1));
        assert(a1.1[k] == pda(t1, w, h, k, a0.0, a0.1));
        assert(a2.0[k] == pca(t2, w, h, k, a0.0, a0.1));
        assert(a2.1[k] == pda(t2, w, h, k, a0.0, a0.1));
        assert(a12.0[k] == pca(t2, w, h, k, a1.0, a1.1));
        assert(a12.1[k] == pda(t2, w, h, k, a1.0, a1.1));
        assert(a21.0[k] == pca(t1, w, h, k, a2.0, a2.1));
        assert(a21.1[k] == pda(t1, w, h, k, a2.0, a2.1));
        assert(a0.0[k] == 0u8 && a0.1[k] == i64::MAX);
    }
    assert(a12.0 =~= a21.0);
    assert(a12.1 =~= a21.1);
}

/// For a front-facing triangle whose three projected screen points lie inside
/// the framebuffer, wound the way the inclusive edge test paints: the set of
/// covered pixels is non-empty (the first vertex's own pixel is covered, and
/// is painted on a fresh frame) and every covered pixel lies within the
/// bounding box of the three screen points.
pub proof fn lemma_painted_set(t: ProjectedTriangle, w: int, h: int)
    requires
        prim_ok(t),
        visible(t),
        1 <= w <= FB_DIM_LIMIT as int,
        1 <= h <= FB_DIM_LIMIT as int,
        0 <= sx0(t, w) < w,
        0 <= sy0(t, h) < h,
        0 <= sx1(t, w) < w,
        0 <= sy1(t, h) < h,
        0 <= sx2(t, w) < w,
        0 <= sy2(t, h) < h,
        area2(sx0(t, w), sy0(t, h), sx1(t, w), sy1(t, h), sx2(t, w), sy2(t, h)) < 0,
    ensures
        covers(t, w, h, sx0(t, w), sy0(t, h)),
        forall|x: int, y: int| #[trigger] covers(t, w, h, x, y)
            ==> min3(sx0(t, w), sx1(t, w), sx2(t, w)) <= x <= max3(sx0(t, w), sx1(t, w), sx2(t, w))
                && min3(sy0(t, h), sy1(t, h), sy2(t, h)) <= y <= max3(sy0(t, h), sy1(t, h), sy2(t, h)),
        raster_after(seq![t], w, h).0[sy0(t, h) * w + sx0(t, w)] == t.color,
{
    let x0 = sx0(t, w);
    let y0 = sy0(t, h);
    let x1 = sx1(t, w);
    let y1 = sy1(t, h);
    let x2 = sx2(t, w);
    let y2 = sy2(t, h);
    // The first vertex passes all three inclusive edge tests.
    crate::barycentric::lemma_edge_at_endpoints(x0, y0, x1, y1);
    crate::barycentric::lemma_edge_at_endpoints(x2, y2, x0, y0);
    crate::barycentric::lemma_edge_is_neg_area2(x1, y1, x2, y2, x0, y0);
    crate::barycentric::lemma_area2_cyclic(x0, y0, x1, y1, x2, y2);
    assert(edge(x1, y1, x2, y2, x0, y0) == -area2(x1, y1, x2, y2, x0, y0));
    assert(area2(x1, y1, x2, y2, x0, y0) == area2(x0, y0, x1, y1, x2, y2));
    assert(covers(t, w, h, x0, y0));
    // The first vertex's pixel is painted on a fresh frame.
    crate::math::lemma_div_range(
        t.triangle.v0.z + t.triangle.v1.z + t.triangle.v2.z, 3, 3 * VIEW_LIMIT as int);
    let e = Seq::<ProjectedTriangle>::empty();
    let a0 = raster_after(e, w, h);
    assert(seq![t].drop_last() =~= e);
    assert(y0 * w + x0 < w * h) by (nonlinear_arith)
        requires
            0 <= x0 < w,
            0 <= y0 < h,
    ;
    lemma_rowmajor(w, x0, y0);
    assert(a0.0[y0 * w + x0] == 0u8 && a0.1[y0 * w + x0] == i64::MAX);
    assert(raster_after(seq![t], w, h).0[y0 * w + x0] == pca(t, w, h, y0 * w + x0, a0.0, a0.1));
}

/// Whether the point `(x, y)` is on the non-negative side of the directed
/// edge from `endpoint1` to `endpoint2`.
pub fn is_inside(endpoint1: Pt2, endpoint2: Pt2, x: i64, y: i64) -> (r: bool)
    requires
        -SCREEN_LIMIT <= endpoint1.x <= SCREEN_LIMIT,
        -SCREEN_LIMIT <= endpoint1.y <= SCREEN_LIMIT,
        -SCREEN_LIMIT <= endpoint2.x <= SCREEN_LIMIT,
        -SCREEN_LIMIT <= endpoint2.y <= SCREEN_LIMIT,
        -SCREEN_LIMIT <= x <= SCREEN_LIMIT,
        -SCREEN_LIMIT <= y <= SCREEN_LIMIT,
    ensures
        r == (edge(endpoint1.x as int, endpoint1.y as int, endpoint2.x as int, endpoint2.y as int,
            x as int, y as int) >= 0),
{
    let a = endpoint2.y - endpoint1.y;
    let b = endpoint1.x - endpoint2.x;
    proof {
        lemma_mul_bound(endpoint2.x as int, endpoint1.y as int, SCREEN_LIMIT as int, SCREEN_LIMIT as int);
        lemma_mul_bound(endpoint1.x as int, endpoint2.y as int, SCREEN_LIMIT as int, SCREEN_LIMIT as int);
        lemma_mul_bound(a as int, x as int, 2 * SCREEN_LIMIT as int, SCREEN_LIMIT as int);
        lemma_mul_bound(b as int, y as int, 2 * SCREEN_LIMIT as int, SCREEN_LIMIT as int);
    }
    let c = endpoint2.x * endpoint1.y - endpoint1.x * endpoint2.y;
    a * x + b * y + c >= 0
}

/// The inclusive three-edge membership test for the triangle with screen
/// points `pt1`, `pt2`, `pt3`.
pub fn is_inside_triangle(pt1: Pt2, pt2: Pt2, pt3: Pt2, x: i64, y: i64) -> (r: bool)
    requires
        -SCREEN_LIMIT <= pt1.x <= SCREEN_LIMIT,
        -SCREEN_LIMIT <= pt1.y <= SCREEN_LIMIT,
        -SCREEN_LIMIT <= pt2.x <= SCREEN_LIMIT,
        -SCREEN_LIMIT <= pt2.y <= SCREEN_LIMIT,
        -SCREEN_LIMIT <= pt3.x <= SCREEN_LIMIT,
        -SCREEN_LIMIT <= pt3.y <= SCREEN_LIMIT,
        -SCREEN_LIMIT <= x <= SCREEN_LIMIT,
        -SCREEN_LIMIT <= y <= SCREEN_LIMIT,
    ensures
        r == {
            &&& edge(pt1.x as int, pt1.y as int, pt2.x as int, pt2.y as int, x as int, y as int) >= 0
            &&& edge(pt2.x as int, pt2.y as int, pt3.x as int, pt3.y as int, x as int, y as int) >= 0
            &&& edge(pt3.x as int, pt3.y as int, pt1.x as int, pt1.y as int, x as int, y as int) >= 0
        },
{
    is_inside(pt1, pt2, x, y) && is_inside(pt2, pt3, x, y) && is_inside(pt3, pt1, x, y)
}

} // verus!
