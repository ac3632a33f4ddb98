use termraster::quantizer::{default_ramp, glyph_for, gray_to_ascii, render_text};
use termraster::rasterizer::Framebuffer;

#[test]
fn default_ramp_is_ordered_ascii() {
    let ramp = default_ramp();
    assert_eq!(ramp, b" .:-~=+oOx0X@&#".to_vec());
    assert!(ramp.iter().all(|&b| b < 0x80));
}

#[test]
fn glyph_for_zero_sum_is_darkest() {
    let ramp = default_ramp();
    assert_eq!(glyph_for(0, 4, &ramp), b' ');
}

#[test]
fn glyph_for_maximal_sum_is_brightest() {
    let ramp = default_ramp();
    assert_eq!(glyph_for(255 * 4, 4, &ramp), b'#');
}

#[test]
fn glyph_for_is_monotone_in_sum() {
    let ramp = default_ramp();
    let pool = 16u64;
    let mut last_pos = 0usize;
    for sum in 0..=(255 * pool) {
        let g = glyph_for(sum, pool, &ramp);
        let pos = ramp.iter().position(|&b| b == g).unwrap();
        assert!(pos >= last_pos, "index dropped at sum {sum}");
        last_pos = pos;
    }
}

#[test]
fn exact_index_formula() {
    let ramp = default_ramp();
    // sum * (ramp_len - 1) / (255 * pool), floor division.
    assert_eq!(glyph_for(400, 4, &ramp), ramp[400 * 14 / (255 * 4)]);
    assert_eq!(glyph_for(400, 4, &ramp), b'=');
    assert_eq!(glyph_for(255, 4, &ramp), b'-');
}

#[test]
fn four_by_four_frame_exact() {
    // Four 2x2 cells: all-bright, all-dark, mid gray, one bright pixel.
    let mut data = vec![0u8; 16];
    // Top-left cell: 255 everywhere.
    for (x, y) in [(0usize, 0usize), (1, 0), (0, 1), (1, 1)] {
        data[y * 4 + x] = 255;
    }
    // Bottom-left cell: 100 everywhere (sum 400, index 5).
    for (x, y) in [(0usize, 2usize), (1, 2), (0, 3), (1, 3)] {
        data[y * 4 + x] = 100;
    }
    // Bottom-right cell: one pixel at 255 (sum 255, index 3).
    data[2 * 4 + 2] = 255;
    let fb = Framebuffer { width: 4, height: 4, data };
    let out = gray_to_ascii(&fb, 2, 2);
    assert_eq!(out, "|==|\r\n|# |\r\n|=-|\r\n|==|\r\n");
}

#[test]
fn trailing_pixels_are_not_sampled() {
    // 5x5 framebuffer pooled to 2x2 cells of 2x2 pixels: the last row and
    // column are beyond an integral multiple of the cell size and must be
    // ignored, however bright.
    let mut data = vec![0u8; 25];
    for i in 0..5usize {
        data[4 * 5 + i] = 255;
        data[i * 5 + 4] = 255;
    }
    let fb = Framebuffer { width: 5, height: 5, data };
    let out = gray_to_ascii(&fb, 2, 2);
    assert_eq!(out, "|==|\r\n|  |\r\n|  |\r\n|==|\r\n");
}

#[test]
fn custom_ramp_two_glyphs() {
    let fb = Framebuffer { width: 2, height: 2, data: vec![255, 255, 0, 0] };
    let ramp = vec![b'.', b'#'];
    // Two 1x2... cells of 2x1? rows=2, cols=1: cells are 2 wide, 1 tall.
    let out = render_text(&fb, 1, 2, &ramp);
    assert_eq!(out, "|=|\r\n|#|\r\n|.|\r\n|=|\r\n");
}

#[test]
fn row_terminators_are_cr_lf() {
    let fb = Framebuffer { width: 2, height: 2, data: vec![0; 4] };
    let out = gray_to_ascii(&fb, 2, 2);
    for line in out.split("\r\n").filter(|l| !l.is_empty()) {
        assert!(line.starts_with('|') && line.ends_with('|'));
        assert_eq!(line.len(), 4);
    }
    assert!(out.ends_with("\r\n"));
}
