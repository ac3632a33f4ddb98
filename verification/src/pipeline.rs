//! The whole pipeline in one call chain: projector, rasterizer, quantizer.
//!
//! Each frame is one sequential pass with no I/O and no state shared across
//! frames, so the pipeline is a pure function of the triangle list, the
//! camera matrix and the configuration; the determinism lemma at the bottom
//! pins that down.

use vstd::prelude::*;
use crate::config::{Config, ConfigError};
use crate::math::{Mat4, Triangle};
use crate::math::{SCALE, WORLD_LIMIT};
use crate::projector::{ProjectedTriangle, mat4_mul, mat_mul_spec, perspective_matrix,
    perspective_spec, project_all_spec, vertex_step};
use crate::quantizer::{CR, FRAME_VERTICAL, LF, chars_of, content_row, default_ramp_spec,
    gray_to_ascii, lemma_glyph_index_monotone, lemma_zero_fb_sums, render_text, text_frame};
use crate::rasterizer::{Framebuffer, raster_after, rasterize};

verus! {

/// Framebuffer width and height of the default session.
pub const DEFAULT_FB_DIM: usize = 256;

/// Default near clip distance, fixed point (about one hundredth).
pub const DEFAULT_NEAR: i64 = 655;

/// Default far clip distance, fixed point (`10.0`).
pub const DEFAULT_FAR: i64 = 655360;

/// Default focal length, fixed point: a 90 degree field of view.
pub const DEFAULT_FOCAL: i64 = SCALE;

/// The perspective matrix of the default session.
pub open spec fn default_projection_spec() -> Mat4 {
    perspective_spec(DEFAULT_FOCAL, DEFAULT_FOCAL, DEFAULT_NEAR, DEFAULT_FAR)
}

/// The framebuffer the default pipeline paints for a triangle list and a
/// camera matrix.
pub open spec fn pipeline_fb_spec(tris: Seq<Triangle>, cam: Mat4) -> Seq<u8> {
    raster_after(project_all_spec(mat_mul_spec(default_projection_spec(), cam), tris),
        DEFAULT_FB_DIM as int, DEFAULT_FB_DIM as int).0
}

/// Runs the default pipeline: composes the default perspective matrix with
/// the camera matrix, carries every triangle through the combined transform,
/// and rasterizes onto a fresh 256 by 256 grayscale frame.
pub fn do_pipeline(input_vtxs: &Vec<Triangle>, cam_mat: &Mat4) -> (img: Framebuffer)
    requires
        cam_mat.in_range(WORLD_LIMIT as int),
        forall|i: int| 0 <= i < input_vtxs@.len()
            ==> (#[trigger] input_vtxs@[i]).in_range(WORLD_LIMIT as int),
    ensures
        img.wf(),
        img.width == DEFAULT_FB_DIM,
        img.height == DEFAULT_FB_DIM,
        img.data@ == pipeline_fb_spec(input_vtxs@, *cam_mat),
{
    let proj = perspective_matrix(DEFAULT_FOCAL, DEFAULT_FOCAL, DEFAULT_NEAR, DEFAULT_FAR);
    let combined = mat4_mul(&proj, cam_mat);
    let pipe_data = vertex_step(input_vtxs, &combined);
    rasterize(pipe_data, DEFAULT_FB_DIM, DEFAULT_FB_DIM)
}

/// The text frame the default pipeline produces for a triangle list, a
/// camera matrix and an output grid.
pub open spec fn pipeline_text_spec(tris: Seq<Triangle>, cam: Mat4, width_px: int, height_px: int) -> Seq<char> {
    chars_of(text_frame(pipeline_fb_spec(tris, cam), DEFAULT_FB_DIM as int, default_ramp_spec(),
        DEFAULT_FB_DIM as int / width_px, DEFAULT_FB_DIM as int / height_px, height_px, width_px))
}

/// One whole frame of the default session: pipeline, then quantizer.
pub fn render_text_frame(input_vtxs: &Vec<Triangle>, cam_mat: &Mat4, width_px: usize, height_px: usize) -> (out: String)
    requires
        cam_mat.in_range(WORLD_LIMIT as int),
        forall|i: int| 0 <= i < input_vtxs@.len()
            ==> (#[trigger] input_vtxs@[i]).in_range(WORLD_LIMIT as int),
        1 <= width_px <= DEFAULT_FB_DIM,
        1 <= height_px <= DEFAULT_FB_DIM,
    ensures
        out@ == pipeline_text_spec(input_vtxs@, *cam_mat, width_px as int, height_px as int),
{
    let img = do_pipeline(input_vtxs, cam_mat);
    gray_to_ascii(&img, width_px, height_px)
}

/// The framebuffer a configured session paints.
pub open spec fn scene_fb_spec(tris: Seq<Triangle>, cam: Mat4, cfg: Config) -> Seq<u8> {
    raster_after(project_all_spec(mat_mul_spec(
        perspective_spec(cfg.focal_x, cfg.focal_y, cfg.near, cfg.far), cam), tris),
        cfg.width as int, cfg.height as int).0
}

/// The text frame a configured session produces.
pub open spec fn scene_text_spec(tris: Seq<Triangle>, cam: Mat4, cfg: Config) -> Seq<char> {
    chars_of(text_frame(scene_fb_spec(tris, cam, cfg), cfg.width as int, cfg.ramp@,
        cfg.width as int / cfg.out_cols as int, cfg.height as int / cfg.out_rows as int,
        cfg.out_rows as int, cfg.out_cols as int))
}

/// Runs one configured frame end to end. An invalid configuration is
/// rejected with its first fault, exactly as [`Config::validate`] reports
/// it, and the pipeline is not run; a valid one always yields the frame.
pub fn render_scene(input_vtxs: &Vec<Triangle>, cam_mat: &Mat4, cfg: &Config) -> (r: Result<String, ConfigError>)
    requires
        cam_mat.in_range(WORLD_LIMIT as int),
        forall|i: int| 0 <= i < input_vtxs@.len()
            ==> (#[trigger] input_vtxs@[i]).in_range(WORLD_LIMIT as int),
    ensures
        r is Ok <==> cfg.valid(),
        r is Ok ==> r->Ok_0@ == scene_text_spec(input_vtxs@, *cam_mat, *cfg),
        r is Err ==> Err::<(), ConfigError>(r->Err_0) == cfg.validate_spec(),
{
    if let Err(e) = cfg.validate() {
        return Err(e);
    }
    let proj = perspective_matrix(cfg.focal_x, cfg.focal_y, cfg.near, cfg.far);
    let combined = mat4_mul(&proj, cam_mat);
    let pipe_data = vertex_step(input_vtxs, &combined);
    let img = rasterize(pipe_data, cfg.height, cfg.width);
    Ok(render_text(&img, cfg.out_cols, cfg.out_rows, &cfg.ramp))
}

/// Re-running the pipeline on identical inputs produces identical frames:
/// framebuffer and text frame are pure functions of the triangle list, the
/// camera matrix and the output grid, so two runs can never disagree.
pub proof fn lemma_pipeline_deterministic(tris: Seq<Triangle>, cam: Mat4, width_px: int, height_px: int,
    fb1: Seq<u8>, fb2: Seq<u8>, s1: Seq<char>, s2: Seq<char>)
    requires
        fb1 == pipeline_fb_spec(tris, cam),
        fb2 == pipeline_fb_spec(tris, cam),
        s1 == pipeline_text_spec(tris, cam, width_px, height_px),
        s2 == pipeline_text_spec(tris, cam, width_px, height_px),
    ensures
        fb1 == fb2,
        s1 == s2,
{
}

/// An empty triangle list leaves the framebuffer at all-zero intensity, and
/// every content cell of the resulting text frame is the darkest ramp glyph.
pub proof fn lemma_empty_scene(cam: Mat4, width_px: int, height_px: int)
    requires
        1 <= width_px <= DEFAULT_FB_DIM,
        1 <= height_px <= DEFAULT_FB_DIM,
    ensures
        pipeline_fb_spec(Seq::empty(), cam)
            == Seq::new((DEFAULT_FB_DIM * DEFAULT_FB_DIM) as nat, |i: int| 0u8),
        forall|r: int| 0 <= r < height_px
            ==> #[trigger] content_row(pipeline_fb_spec(Seq::empty(), cam), DEFAULT_FB_DIM as int,
                default_ramp_spec(), DEFAULT_FB_DIM as int / width_px,
                DEFAULT_FB_DIM as int / height_px, width_px, r)
                == seq![FRAME_VERTICAL] + Seq::new(width_px as nat, |c: int| 32u8)
                    + seq![FRAME_VERTICAL, CR, LF],
{
    let d = DEFAULT_FB_DIM as int;
    let m = mat_mul_spec(default_projection_spec(), cam);
    assert(project_all_spec(m, Seq::empty()) =~= Seq::<ProjectedTriangle>::empty());
    let fb = pipeline_fb_spec(Seq::empty(), cam);
    assert(fb =~= Seq::new((d * d) as nat, |i: int| 0u8));
    let sw = d / width_px;
    let sh = d / height_px;
    assert(1 <= sw && width_px * sw <= d) by (nonlinear_arith)
        requires
            1 <= width_px <= d,
            sw == d / width_px,
            d == 256,
    ;
    assert(1 <= sh && height_px * sh <= d) by (nonlinear_arith)
        requires
            1 <= height_px <= d,
            sh == d / height_px,
            d == 256,
    ;
    assert forall|r: int, c: int| 0 <= r < height_px && 0 <= c < width_px
        implies #[trigger] crate::quantizer::cell_glyph(fb, d, default_ramp_spec(), sw, sh, r, c)
            == 32u8 by {
        assert(c * sw + sw <= width_px * sw) by (nonlinear_arith)
            requires
                0 <= c < width_px,
                1 <= sw,
        ;
        assert(0 <= c * sw) by (nonlinear_arith)
            requires
                0 <= c,
                1 <= sw,
        ;
        assert(0 <= r * sh) by (nonlinear_arith)
            requires
                0 <= r,
                1 <= sh,
        ;
        assert(r * sh + sh == (r + 1) * sh) by (nonlinear_arith);
        assert((r + 1) * sh <= height_px * sh) by (nonlinear_arith)
            requires
                r + 1 <= height_px,
                1 <= sh,
        ;
        assert((r * sh + sh) * d <= d * d) by (nonlinear_arith)
            requires
                0 <= r * sh + sh <= d,
                0 < d,
        ;
        lemma_zero_fb_sums(fb, d, c * sw, r * sh, sw, sh);
        assert(1 <= sw * sh) by (nonlinear_arith)
            requires
                1 <= sw,
                1 <= sh,
        ;
        lemma_glyph_index_monotone(0, 0, default_ramp_spec().len() as int, sw * sh);
        assert(default_ramp_spec()[0] == 32u8);
    }
    assert forall|r: int| 0 <= r < height_px
        implies #[trigger] content_row(fb, d, default_ramp_spec(), sw, sh, width_px, r)
            == seq![FRAME_VERTICAL] + Seq::new(width_px as nat, |c: int| 32u8)
                + seq![FRAME_VERTICAL, CR, LF] by {
        assert(Seq::new(width_px as nat,
            |c: int| crate::quantizer::cell_glyph(fb, d, default_ramp_spec(), sw, sh, r, c))
            =~= Seq::new(width_px as nat, |c: int| 32u8));
    }
}

} // verus!
