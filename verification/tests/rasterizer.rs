use termraster::math::{Pt2, Triangle, Vec3, SCALE};
use termraster::projector::ProjectedTriangle;
use termraster::rasterizer::{
    is_inside, is_inside_triangle, max3_i64, min3_i64, rasterize, Framebuffer, Rasterizer,
};

fn v(x: i64, y: i64, z: i64) -> Vec3 {
    Vec3 { x, y, z }
}

/// The triangle from the end-to-end scenario: camera-space depth `1.0`,
/// projecting to screen points (64,64), (128,192), (192,64) on a 256x256
/// framebuffer, wound so the inclusive edge test paints it.
fn unit_depth_triangle(color: u8) -> ProjectedTriangle {
    ProjectedTriangle {
        triangle: Triangle {
            v0: v(-SCALE / 2, -SCALE / 2, SCALE),
            v1: v(0, SCALE / 2, SCALE),
            v2: v(SCALE / 2, -SCALE / 2, SCALE),
        },
        color,
    }
}

/// The same screen footprint at camera-space depth `2.0`.
fn double_depth_triangle(color: u8) -> ProjectedTriangle {
    ProjectedTriangle {
        triangle: Triangle {
            v0: v(-SCALE, -SCALE, 2 * SCALE),
            v1: v(0, SCALE, 2 * SCALE),
            v2: v(SCALE, -SCALE, 2 * SCALE),
        },
        color,
    }
}

#[test]
fn fresh_framebuffer_is_zero() {
    let fb = Framebuffer::new(8, 4);
    assert_eq!(fb.width, 8);
    assert_eq!(fb.height, 4);
    assert_eq!(fb.data, vec![0u8; 32]);
}

#[test]
fn fresh_rasterizer_depth_is_infinite() {
    let r = Rasterizer::new(4, 4);
    assert_eq!(r.depth.len(), 16);
    assert!(r.depth.iter().all(|&d| d == i64::MAX));
    assert!(r.fb.data.iter().all(|&p| p == 0));
}

#[test]
fn edge_test_counts_boundary_as_inside() {
    // A point exactly on the edge has edge function zero, which passes.
    let p1 = Pt2 { x: 0, y: 0 };
    let p2 = Pt2 { x: 10, y: 0 };
    assert!(is_inside(p1, p2, 5, 0));
    // The edge function of (0,0)->(10,0) at (x,y) is -10*y, so y above the
    // axis fails and y below passes.
    assert!(!is_inside(p1, p2, 5, 1));
    assert!(is_inside(p1, p2, 5, -1));
}

#[test]
fn triangle_membership_samples() {
    let s0 = Pt2 { x: 64, y: 64 };
    let s1 = Pt2 { x: 128, y: 192 };
    let s2 = Pt2 { x: 192, y: 64 };
    for (x, y) in [(128, 100), (128, 64), (100, 80), (64, 64), (192, 64), (128, 192)] {
        assert!(is_inside_triangle(s0, s1, s2, x, y), "({x},{y}) should be inside");
    }
    for (x, y) in [(10, 10), (250, 250), (64, 63), (200, 150), (63, 64)] {
        assert!(!is_inside_triangle(s0, s1, s2, x, y), "({x},{y}) should be outside");
    }
}

#[test]
fn scenario_axis_aligned_triangle_fills_interior() {
    let img = rasterize(vec![unit_depth_triangle(255)], 256, 256);
    assert_eq!(img.width, 256);
    assert_eq!(img.height, 256);
    // Interior samples, the three vertices included.
    for (x, y) in [(128usize, 100usize), (128, 64), (100, 80), (64, 64), (192, 64), (128, 192)] {
        assert_eq!(img.data[y * 256 + x], 255, "({x},{y}) should be painted");
    }
    // Exterior samples.
    for (x, y) in [(10usize, 10usize), (250, 250), (64, 63), (200, 150), (63, 64)] {
        assert_eq!(img.data[y * 256 + x], 0, "({x},{y}) should stay dark");
    }
}

#[test]
fn painted_pixels_stay_inside_bounding_box() {
    let img = rasterize(vec![unit_depth_triangle(255)], 256, 256);
    for y in 0..256usize {
        for x in 0..256usize {
            if img.data[y * 256 + x] != 0 {
                assert!((64..=192).contains(&x) && (64..=192).contains(&y),
                    "({x},{y}) painted outside the bounding box");
            }
        }
    }
}

#[test]
fn opposite_winding_paints_nothing() {
    // Swapping two vertices flips the sign of the doubled area; the
    // inclusive all-non-negative edge test then fails everywhere.
    let t = unit_depth_triangle(255);
    let flipped = ProjectedTriangle {
        triangle: Triangle { v0: t.triangle.v2, v1: t.triangle.v1, v2: t.triangle.v0 },
        color: 255,
    };
    let img = rasterize(vec![flipped], 256, 256);
    assert!(img.data.iter().all(|&p| p == 0));
}

#[test]
fn behind_camera_triangle_is_discarded() {
    let t = ProjectedTriangle {
        triangle: Triangle {
            v0: v(-SCALE / 2, -SCALE / 2, -SCALE),
            v1: v(0, SCALE / 2, SCALE),
            v2: v(SCALE / 2, -SCALE / 2, SCALE),
        },
        color: 255,
    };
    let img = rasterize(vec![t], 256, 256);
    assert!(img.data.iter().all(|&p| p == 0));
}

#[test]
fn depth_resolution_is_order_independent() {
    let near_tri = unit_depth_triangle(100);
    let far_tri = double_depth_triangle(200);
    let a = rasterize(vec![near_tri, far_tri], 256, 256);
    let b = rasterize(vec![far_tri, near_tri], 256, 256);
    assert_eq!(a.data, b.data);
    // The nearer triangle's color persists in the overlap either way.
    assert_eq!(a.data[100 * 256 + 128], 100);
    assert_eq!(b.data[100 * 256 + 128], 100);
}

#[test]
fn equal_depth_first_drawn_wins() {
    let first = unit_depth_triangle(100);
    let second = unit_depth_triangle(200);
    let img = rasterize(vec![first, second], 256, 256);
    assert_eq!(img.data[100 * 256 + 128], 100);
}

#[test]
fn min3_max3_pick_extremes() {
    assert_eq!(min3_i64(3, 1, 2), 1);
    assert_eq!(min3_i64(1, 2, 3), 1);
    assert_eq!(min3_i64(2, 3, 1), 1);
    assert_eq!(max3_i64(3, 1, 2), 3);
    assert_eq!(max3_i64(1, 2, 3), 3);
    assert_eq!(max3_i64(2, 3, 1), 3);
}
