use termraster::config::{Config, ConfigError};
use termraster::logger::{log_fn, LogSink};
use termraster::math::{Mat4, Pt2, Triangle, Vec3, SCALE};
use termraster::pipeline::{do_pipeline, render_scene, render_text_frame};
use termraster::projector::{mat4_mul, nc_to_screen, perspective_matrix, transform_vertex, vertex_step};
use termraster::quantizer::default_ramp;

fn v(x: i64, y: i64, z: i64) -> Vec3 {
    Vec3 { x, y, z }
}

fn tri(a: Vec3, b: Vec3, c: Vec3) -> Triangle {
    Triangle::new(a, b, c)
}

fn sample_scene() -> Vec<Triangle> {
    vec![
        tri(v(-SCALE / 2, -SCALE / 2, 2 * SCALE), v(0, SCALE / 2, 2 * SCALE),
            v(SCALE / 2, -SCALE / 2, 2 * SCALE)),
        tri(v(-SCALE, 0, 3 * SCALE), v(0, SCALE, 3 * SCALE), v(SCALE, 0, 3 * SCALE)),
    ]
}

fn valid_config() -> Config {
    Config {
        width: 64,
        height: 64,
        focal_x: SCALE,
        focal_y: SCALE,
        near: 655,
        far: 655360,
        out_rows: 8,
        out_cols: 8,
        ramp: default_ramp(),
    }
}

#[test]
fn identity_matrix_round_trip() {
    let id = Mat4::identity();
    let m = mat4_mul(&id, &id);
    assert_eq!(m, id);
    let p = transform_vertex(&id, v(123, -456, 789));
    assert_eq!(p, v(123, -456, 789));
}

#[test]
fn perspective_matrix_default_entries() {
    let m = perspective_matrix(SCALE, SCALE, 655, 655360);
    assert_eq!(m.m00, SCALE);
    assert_eq!(m.m11, SCALE);
    assert_eq!(m.m22, 65667);
    assert_eq!(m.m23, -1311);
    assert_eq!(m.m32, SCALE);
    assert_eq!(m.m33, 0);
    assert_eq!((m.m01, m.m02, m.m03, m.m10, m.m12, m.m13, m.m20, m.m21, m.m30, m.m31),
        (0, 0, 0, 0, 0, 0, 0, 0, 0, 0));
}

#[test]
fn translation_moves_vertices() {
    // A camera matrix translating x by one unit.
    let mut cam = Mat4::identity();
    cam.m03 = SCALE;
    let moved = transform_vertex(&cam, v(0, 0, 2 * SCALE));
    assert_eq!(moved, v(SCALE, 0, 2 * SCALE));
}

#[test]
fn vertex_step_keeps_order_and_count() {
    let scene = sample_scene();
    let prims = vertex_step(&scene, &Mat4::identity());
    assert_eq!(prims.len(), 2);
    for (p, t) in prims.iter().zip(scene.iter()) {
        assert_eq!(p.triangle, *t);
        assert_eq!(p.color, 255);
    }
}

#[test]
fn screen_mapping_rounds_to_nearest() {
    let s = nc_to_screen(Pt2 { x: -SCALE / 2, y: SCALE / 2 }, 256, 256);
    assert_eq!(s, Pt2 { x: 64, y: 192 });
    let center = nc_to_screen(Pt2 { x: 0, y: 0 }, 256, 256);
    assert_eq!(center, Pt2 { x: 128, y: 128 });
    let corner = nc_to_screen(Pt2 { x: -SCALE, y: SCALE }, 256, 256);
    assert_eq!(corner, Pt2 { x: 0, y: 256 });
}

#[test]
fn empty_scene_gives_black_framebuffer() {
    let img = do_pipeline(&Vec::new(), &Mat4::identity());
    assert_eq!(img.width, 256);
    assert_eq!(img.height, 256);
    assert!(img.data.iter().all(|&p| p == 0));
}

#[test]
fn empty_scene_gives_darkest_glyphs() {
    let out = render_text_frame(&Vec::new(), &Mat4::identity(), 4, 4);
    assert_eq!(out, "|====|\r\n|    |\r\n|    |\r\n|    |\r\n|    |\r\n|====|\r\n");
}

#[test]
fn pipeline_is_deterministic() {
    let scene = sample_scene();
    let cam = Mat4::identity();
    let img1 = do_pipeline(&scene, &cam);
    let img2 = do_pipeline(&scene, &cam);
    assert_eq!(img1.data, img2.data);
    let s1 = render_text_frame(&scene, &cam, 32, 16);
    let s2 = render_text_frame(&scene, &cam, 32, 16);
    assert_eq!(s1.as_bytes(), s2.as_bytes());
}

#[test]
fn pipeline_paints_a_triangle_in_front() {
    // A triangle straight ahead at depth 2 must light up some pixel.
    let scene = sample_scene();
    let img = do_pipeline(&scene, &Mat4::identity());
    assert!(img.data.iter().any(|&p| p == 255));
}

#[test]
fn render_scene_accepts_valid_config() {
    let out = render_scene(&sample_scene(), &Mat4::identity(), &valid_config());
    let text = out.expect("valid configuration must render");
    assert!(text.starts_with("|========|\r\n"));
    assert!(text.ends_with("|========|\r\n"));
    assert_eq!(text.split("\r\n").filter(|l| !l.is_empty()).count(), 10);
}

#[test]
fn render_scene_rejects_before_running() {
    let mut cfg = valid_config();
    cfg.width = 0;
    let r = render_scene(&sample_scene(), &Mat4::identity(), &cfg);
    assert_eq!(r.unwrap_err(), ConfigError::ZeroFramebuffer);
}

#[test]
fn config_error_zero_framebuffer() {
    let mut cfg = valid_config();
    cfg.height = 0;
    assert_eq!(cfg.validate(), Err(ConfigError::ZeroFramebuffer));
}

#[test]
fn config_error_framebuffer_too_large() {
    let mut cfg = valid_config();
    cfg.width = 16385;
    assert_eq!(cfg.validate(), Err(ConfigError::FramebufferTooLarge));
}

#[test]
fn config_error_zero_grid() {
    let mut cfg = valid_config();
    cfg.out_cols = 0;
    assert_eq!(cfg.validate(), Err(ConfigError::ZeroGrid));
}

#[test]
fn config_error_grid_too_large() {
    let mut cfg = valid_config();
    cfg.out_rows = cfg.height + 1;
    assert_eq!(cfg.validate(), Err(ConfigError::GridTooLarge));
}

#[test]
fn config_error_empty_ramp() {
    let mut cfg = valid_config();
    cfg.ramp = Vec::new();
    assert_eq!(cfg.validate(), Err(ConfigError::EmptyRamp));
}

#[test]
fn config_error_ramp_too_long() {
    let mut cfg = valid_config();
    cfg.ramp = vec![b'.'; 4097];
    assert_eq!(cfg.validate(), Err(ConfigError::RampTooLong));
}

#[test]
fn config_error_ramp_not_ascii() {
    let mut cfg = valid_config();
    cfg.ramp = vec![b'.', 0xC3, b'#'];
    assert_eq!(cfg.validate(), Err(ConfigError::RampNotAscii));
}

#[test]
fn config_error_invalid_focal() {
    let mut cfg = valid_config();
    cfg.focal_x = 0;
    assert_eq!(cfg.validate(), Err(ConfigError::InvalidFocal));
}

#[test]
fn config_error_invalid_clip_planes() {
    let mut cfg = valid_config();
    cfg.far = cfg.near;
    assert_eq!(cfg.validate(), Err(ConfigError::InvalidClipPlanes));
    // Planes so close that the depth entries leave the fixed-point range.
    let mut tight = valid_config();
    tight.near = 65536;
    tight.far = 65537;
    assert_eq!(tight.validate(), Err(ConfigError::InvalidClipPlanes));
}

#[test]
fn config_valid_passes() {
    assert_eq!(valid_config().validate(), Ok(()));
}

#[test]
fn log_sink_appends_in_order() {
    let mut sink = LogSink::new();
    assert_eq!(sink.len(), 0);
    log_fn(&mut sink, String::from("first"));
    log_fn(&mut sink, String::from("second"));
    assert_eq!(sink.lines, vec![String::from("first"), String::from("second")]);
}
