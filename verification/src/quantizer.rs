//! The quantizer: pools rectangular blocks of framebuffer pixels and maps
//! each pooled intensity sum to a glyph of an ordered brightness ramp,
//! producing the final text frame.
//!
//! Conventions, fixed here:
//! - The framebuffer is partitioned into `rows x cols` cells of
//!   `(height / rows) x (width / cols)` pixels (integer division); trailing
//!   pixels beyond an integral multiple of the cell size are not sampled.
//! - A cell's sum maps to `sum * (ramp_len - 1) / (255 * cell_pixels)`, a
//!   floor division, so the index always stays inside the ramp.
//! - The ramp is ordered from least intense to most intense; the darkest
//!   glyph (a blank) comes first.
//! - Rows are emitted top to bottom, cells left to right, matching the
//!   rasterizer's row order. Every output row is wrapped in a vertical frame
//!   character and terminated with carriage-return plus line-feed for raw
//!   terminal mode; a horizontal border row of the same width opens and
//!   closes the frame.

use vstd::prelude::*;
use crate::math::FB_DIM_LIMIT;
use crate::math::lemma_mul_bound;
use crate::rasterizer::Framebuffer;

verus! {

/// The vertical frame glyph wrapping every output row.
pub const FRAME_VERTICAL: u8 = 124u8;

/// The horizontal frame glyph filling the top and bottom border rows.
pub const FRAME_HORIZONTAL: u8 = 61u8;

/// Carriage return: each output row ends with it, then a line feed.
pub const CR: u8 = 13u8;

/// Line feed.
pub const LF: u8 = 10u8;

/// Largest accepted glyph ramp length.
pub const RAMP_LEN_LIMIT: usize = 4096;

/// The default brightness ramp, least intense first.
pub open spec fn default_ramp_spec() -> Seq<u8> {
    seq![32u8, 46u8, 58u8, 45u8, 126u8, 61u8, 43u8, 111u8, 79u8, 120u8, 48u8, 88u8, 64u8, 38u8, 35u8]
}

/// Exec counterpart of [`default_ramp_spec`]; every glyph is plain ASCII.
pub fn default_ramp() -> (r: Vec<u8>)
    ensures
        r@ == default_ramp_spec(),
        forall|i: int| 0 <= i < r@.len() ==> r@[i] < 0x80,
{
    let mut r: Vec<u8> = Vec::new();
    r.push(32u8);
    r.push(46u8);
    r.push(58u8);
    r.push(45u8);
    r.push(126u8);
    r.push(61u8);
    r.push(43u8);
    r.push(111u8);
    r.push(79u8);
    r.push(120u8);
    r.push(48u8);
    r.push(88u8);
    r.push(64u8);
    r.push(38u8);
    r.push(35u8);
    proof {
        assert(r@ =~= default_ramp_spec());
    }
    r
}

/// The ramp index of a pooled intensity sum for a cell of `pool` pixels.
pub open spec fn glyph_index(sum: int, ramp_len: int, pool: int) -> int {
    (sum * (ramp_len - 1)) / (255 * pool)
}

/// Sum of `n` pixels of row `y` starting at column `x0`, on a framebuffer
/// `fbw` wide.
pub open spec fn row_sum(fb: Seq<u8>, fbw: int, x0: int, y: int, n: int) -> int
    decreases n,
{
    if n <= 0 {
        0
    } else {
        row_sum(fb, fbw, x0, y, n - 1) + fb[y * fbw + x0 + (n - 1)]
    }
}

/// Sum of the `sw` by `m` pixel block with top-left corner `(x0, y0)`.
pub open spec fn cell_sum(fb: Seq<u8>, fbw: int, x0: int, y0: int, sw: int, m: int) -> int
    decreases m,
{
    if m <= 0 {
        0
    } else {
        cell_sum(fb, fbw, x0, y0, sw, m - 1) + row_sum(fb, fbw, x0, y0 + (m - 1), sw)
    }
}

/// The glyph of output cell `(r, c)` for cells of `sw` by `sh` pixels.
pub open spec fn cell_glyph(fb: Seq<u8>, fbw: int, ramp: Seq<u8>, sw: int, sh: int, r: int, c: int) -> u8 {
    ramp[glyph_index(cell_sum(fb, fbw, c * sw, r * sh, sw, sh), ramp.len() as int, sw * sh)]
}

/// A horizontal border row of width `cols`, framed and terminated like every
/// other row.
pub open spec fn border_row(cols: int) -> Seq<u8> {
    seq![FRAME_VERTICAL] + Seq::new(cols as nat, |i: int| FRAME_HORIZONTAL)
        + seq![FRAME_VERTICAL, CR, LF]
}

/// Output row `r` of the quantized frame: `cols` cell glyphs, framed and
/// terminated.
pub open spec fn content_row(fb: Seq<u8>, fbw: int, ramp: Seq<u8>, sw: int, sh: int, cols: int, r: int) -> Seq<u8> {
    seq![FRAME_VERTICAL] + Seq::new(cols as nat, |c: int| cell_glyph(fb, fbw, ramp, sw, sh, r, c))
        + seq![FRAME_VERTICAL, CR, LF]
}

/// The first `r` output rows of the quantized frame, concatenated.
pub open spec fn content_rows(fb: Seq<u8>, fbw: int, ramp: Seq<u8>, sw: int, sh: int, cols: int, r: int) -> Seq<u8>
    decreases r,
{
    if r <= 0 {
        Seq::empty()
    } else {
        content_rows(fb, fbw, ramp, sw, sh, cols, r - 1) + content_row(fb, fbw, ramp, sw, sh, cols, r - 1)
    }
}

/// The whole text frame: border, `rows` content rows, border.
pub open spec fn text_frame(fb: Seq<u8>, fbw: int, ramp: Seq<u8>, sw: int, sh: int, rows: int, cols: int) -> Seq<u8> {
    border_row(cols) + content_rows(fb, fbw, ramp, sw, sh, cols, rows) + border_row(cols)
}

/// The characters of a byte sequence, one character per byte.
pub open spec fn chars_of(s: Seq<u8>) -> Seq<char> {
    Seq::new(s.len(), |i: int| s[i] as char)
}

/// The quantizer's mapping from pooled intensity sum to ramp index is
/// monotonically non-decreasing in the sum; the zero sum maps to the first
/// ramp index, the maximal possible sum to the last, and every sum a cell
/// can produce stays inside the ramp.
pub proof fn lemma_glyph_index_monotone(s1: int, s2: int, ramp_len: int, pool: int)
    requires
        0 <= s1 <= s2,
        pool >= 1,
        ramp_len >= 1,
    ensures
        glyph_index(s1, ramp_len, pool) <= glyph_index(s2, ramp_len, pool),
        glyph_index(0, ramp_len, pool) == 0,
        glyph_index(255 * pool, ramp_len, pool) == ramp_len - 1,
        s1 <= 255 * pool ==> 0 <= glyph_index(s1, ramp_len, pool) <= ramp_len - 1,
{
    vstd::arithmetic::mul::lemma_mul_inequality(s1, s2, ramp_len - 1);
    vstd::arithmetic::div_mod::lemma_div_is_ordered(s1 * (ramp_len - 1), s2 * (ramp_len - 1), 255 * pool);
    assert(glyph_index(0, ramp_len, pool) == 0) by (nonlinear_arith)
        requires
            pool >= 1,
    ;
    assert(glyph_index(255 * pool, ramp_len, pool) == ramp_len - 1) by (nonlinear_arith)
        requires
            pool >= 1,
            ramp_len >= 1,
    ;
    if s1 <= 255 * pool {
        assert(0 <= glyph_index(s1, ramp_len, pool) <= ramp_len - 1) by (nonlinear_arith)
            requires
                pool >= 1,
                ramp_len >= 1,
                0 <= s1 <= 255 * pool,
        ;
    }
}

/// Every cell sum over an all-zero framebuffer is zero, so every cell maps
/// to the first (darkest) ramp glyph. The cell must lie inside the
/// framebuffer, since bytes outside it are unspecified.
pub proof fn lemma_zero_fb_sums(fb: Seq<u8>, fbw: int, x0: int, y0: int, sw: int, m: int)
    requires
        m >= 0,
        0 <= sw,
        0 <= x0,
        x0 + sw <= fbw,
        1 <= fbw,
        0 <= y0,
        (y0 + m) * fbw <= fb.len(),
        forall|i: int| 0 <= i < fb.len() ==> fb[i] == 0,
    ensures
        cell_sum(fb, fbw, x0, y0, sw, m) == 0,
    decreases m,
{
    if m > 0 {
        assert((y0 + m - 1) * fbw <= fb.len() - fbw) by (nonlinear_arith)
            requires
                (y0 + m) * fbw <= fb.len(),
                1 <= fbw,
        ;
        lemma_zero_fb_sums(fb, fbw, x0, y0, sw, m - 1);
        assert(0 <= (y0 + m - 1) * fbw) by (nonlinear_arith)
            requires
                0 <= y0 + m - 1,
                1 <= fbw,
        ;
        lemma_zero_row_sum(fb, fbw, x0, y0 + (m - 1), sw);
    }
}

/// A row sum over an all-zero framebuffer is zero, for a row segment lying
/// inside the framebuffer.
proof fn lemma_zero_row_sum(fb: Seq<u8>, fbw: int, x0: int, y: int, n: int)
    requires
        n >= 0,
        0 <= x0,
        x0 + n <= fbw,
        0 <= y * fbw,
        y * fbw + fbw <= fb.len(),
        forall|i: int| 0 <= i < fb.len() ==> fb[i] == 0,
    ensures
        row_sum(fb, fbw, x0, y, n) == 0,
    decreases n,
{
    if n > 0 {
        lemma_zero_row_sum(fb, fbw, x0, y, n - 1);
    }
}

/// Pools one `sw` by `sh` cell with top-left pixel `(x0, y0)`: the exact sum
/// of its pixel intensities.
#[verifier::loop_isolation(false)]
pub fn sum_cell(img: &Framebuffer, x0: usize, y0: usize, sw: usize, sh: usize) -> (sum: u64)
    requires
        img.wf(),
        1 <= sw,
        1 <= sh,
        x0 + sw <= img.width,
        y0 + sh <= img.height,
    ensures
        sum == cell_sum(img.data@, img.width as int, x0 as int, y0 as int, sw as int, sh as int),
        sum <= 255 * (sw * sh),
{
    let w = img.width;
    let ghost fb = img.data@;
    let ghost wi = w as int;
    let mut sum: u64 = 0;
    let mut dy: usize = 0;
    while dy < sh
        invariant
            dy <= sh,
            sum == cell_sum(fb, wi, x0 as int, y0 as int, sw as int, dy as int),
            sum <= 255 * (dy * sw),
        decreases sh - dy,
    {
        let y = y0 + dy;
        let mut dx: usize = 0;
        while dx < sw
            invariant
                dx <= sw,
                y == y0 + dy,
                dy < sh,
                sum == cell_sum(fb, wi, x0 as int, y0 as int, sw as int, dy as int)
                    + row_sum(fb, wi, x0 as int, y as int, dx as int),
                sum <= 255 * (dy * sw) + 255 * dx,
            decreases sw - dx,
        {
            proof {
                lemma_mul_bound(y as int, wi, FB_DIM_LIMIT as int, FB_DIM_LIMIT as int);
                assert(y * wi + (x0 + dx) < wi * img.height) by (nonlinear_arith)
                    requires
                        0 <= x0 + dx < wi,
                        0 <= y < img.height,
                ;
                lemma_mul_bound(dy as int, sw as int, FB_DIM_LIMIT as int, FB_DIM_LIMIT as int);
            }
            let px = img.data[y * w + (x0 + dx)];
            sum = sum + (px as u64);
            dx = dx + 1;
        }
        proof {
            assert(cell_sum(fb, wi, x0 as int, y0 as int, sw as int, dy as int + 1)
                == cell_sum(fb, wi, x0 as int, y0 as int, sw as int, dy as int)
                    + row_sum(fb, wi, x0 as int, y as int, sw as int));
            assert(255 * ((dy + 1) * sw) == 255 * (dy * sw) + 255 * sw) by (nonlinear_arith);
        }
        dy = dy + 1;
    }
    proof {
        lemma_mul_bound(sh as int, sw as int, FB_DIM_LIMIT as int, FB_DIM_LIMIT as int);
        assert(sh * sw == sw * sh) by (nonlinear_arith);
    }
    sum
}

/// Maps one pooled sum to its ramp glyph by the floor-division index rule.
pub fn glyph_for(sum: u64, pool: u64, ramp: &Vec<u8>) -> (g: u8)
    requires
        1 <= pool <= FB_DIM_LIMIT * FB_DIM_LIMIT,
        sum <= 255 * pool,
        1 <= ramp@.len() <= RAMP_LEN_LIMIT,
    ensures
        g == ramp@[glyph_index(sum as int, ramp@.len() as int, pool as int)],
{
    let len = ramp.len();
    proof {
        lemma_mul_bound(sum as int, len as int - 1, 255 * (FB_DIM_LIMIT * FB_DIM_LIMIT) as int,
            RAMP_LEN_LIMIT as int);
        lemma_glyph_index_monotone(sum as int, sum as int, len as int, pool as int);
    }
    let idx = (sum * ((len as u64) - 1)) / (255 * pool);
    ramp[idx as usize]
}

/// One horizontal border row of width `cols`, as bytes.
#[verifier::loop_isolation(false)]
fn border_row_vec(cols: usize) -> (out: Vec<u8>)
    requires
        cols <= FB_DIM_LIMIT,
    ensures
        out@ == border_row(cols as int),
        forall|i: int| 0 <= i < out@.len() ==> out@[i] < 0x80,
{
    let mut out: Vec<u8> = Vec::new();
    out.push(FRAME_VERTICAL);
    let mut c: usize = 0;
    while c < cols
        invariant
            c <= cols,
            out@ == seq![FRAME_VERTICAL] + Seq::new(c as nat, |i: int| FRAME_HORIZONTAL),
        decreases cols - c,
    {
        out.push(FRAME_HORIZONTAL);
        proof {
            assert(out@ =~= seq![FRAME_VERTICAL] + Seq::new((c + 1) as nat, |i: int| FRAME_HORIZONTAL));
        }
        c = c + 1;
    }
    out.push(FRAME_VERTICAL);
    out.push(CR);
    out.push(LF);
    proof {
        assert(out@ =~= border_row(cols as int));
    }
    out
}

/// One content row of the quantized frame, as bytes.
#[verifier::loop_isolation(false)]
fn content_row_vec(img: &Framebuffer, ramp: &Vec<u8>, sw: usize, sh: usize, r: usize, cols: usize) -> (out: Vec<u8>)
    requires
        img.wf(),
        1 <= sw,
        1 <= sh,
        1 <= cols,
        cols * sw <= img.width,
        (r + 1) * sh <= img.height,
        1 <= ramp@.len() <= RAMP_LEN_LIMIT,
        forall|i: int| 0 <= i < ramp@.len() ==> ramp@[i] < 0x80,
    ensures
        out@ == content_row(img.data@, img.width as int, ramp@, sw as int, sh as int, cols as int, r as int),
        forall|i: int| 0 <= i < out@.len() ==> out@[i] < 0x80,
{
    let ghost fb = img.data@;
    let ghost wi = img.width as int;
    let mut out: Vec<u8> = Vec::new();
    out.push(FRAME_VERTICAL);
    let mut c: usize = 0;
    while c < cols
        invariant
            c <= cols,
            out@ == seq![FRAME_VERTICAL] + Seq::new(c as nat,
                |k: int| cell_glyph(fb, wi, ramp@, sw as int, sh as int, r as int, k)),
            forall|i: int| 0 <= i < out@.len() ==> out@[i] < 0x80,
        decreases cols - c,
    {
        proof {
            assert((c + 1) * sw <= cols * sw) by (nonlinear_arith)
                requires
                    c + 1 <= cols,
                    1 <= sw,
            ;
            assert(c * sw + sw == (c + 1) * sw) by (nonlinear_arith);
            assert(r * sh + sh == (r + 1) * sh) by (nonlinear_arith);
            assert(0 <= r * sh) by (nonlinear_arith)
                requires
                    0 <= r,
                    1 <= sh,
            ;
            assert(c <= FB_DIM_LIMIT) by (nonlinear_arith)
                requires
                    c < cols,
                    1 <= sw,
                    cols * sw <= img.width,
                    img.width <= FB_DIM_LIMIT,
            ;
            assert(r <= FB_DIM_LIMIT) by (nonlinear_arith)
                requires
                    1 <= sh,
                    (r + 1) * sh <= img.height,
                    img.height <= FB_DIM_LIMIT,
            ;
            lemma_mul_bound(c as int, sw as int, FB_DIM_LIMIT as int, FB_DIM_LIMIT as int);
            lemma_mul_bound(r as int, sh as int, FB_DIM_LIMIT as int, FB_DIM_LIMIT as int);
        }
        let sum = sum_cell(img, c * sw, r * sh, sw, sh);
        proof {
            lemma_mul_bound(sw as int, sh as int, FB_DIM_LIMIT as int, FB_DIM_LIMIT as int);
            assert(1 <= sw * sh) by (nonlinear_arith)
                requires
                    1 <= sw,
                    1 <= sh,
            ;
            lemma_glyph_index_monotone(sum as int, sum as int, ramp@.len() as int, (sw * sh) as int);
        }
        let g = glyph_for(sum, (sw * sh) as u64, ramp);
        out.push(g);
        proof {
            assert(out@ =~= seq![FRAME_VERTICAL] + Seq::new((c + 1) as nat,
                |k: int| cell_glyph(fb, wi, ramp@, sw as int, sh as int, r as int, k)));
        }
        c = c + 1;
    }
    out.push(FRAME_VERTICAL);
    out.push(CR);
    out.push(LF);
    proof {
        assert(out@ =~= content_row(fb, wi, ramp@, sw as int, sh as int, cols as int, r as int));
    }
    out
}

/// Quantizes a framebuffer into a byte frame of `height_px` rows by
/// `width_px` columns over the given glyph ramp: pooling cells of
/// `width / width_px` by `height / height_px` pixels, framed and terminated
/// as raw terminal mode wants.
#[verifier::loop_isolation(false)]
pub fn render_frame(img: &Framebuffer, width_px: usize, height_px: usize, ramp: &Vec<u8>) -> (out: Vec<u8>)
    requires
        img.wf(),
        1 <= width_px <= img.width,
        1 <= height_px <= img.height,
        1 <= ramp@.len() <= RAMP_LEN_LIMIT,
        forall|i: int| 0 <= i < ramp@.len() ==> ramp@[i] < 0x80,
    ensures
        out@ == text_frame(img.data@, img.width as int, ramp@, (img.width / width_px) as int,
            (img.height / height_px) as int, height_px as int, width_px as int),
        forall|i: int| 0 <= i < out@.len() ==> out@[i] < 0x80,
{
    let ghost fb = img.data@;
    let ghost wi = img.width as int;
    let sw = img.width / width_px;
    let sh = img.height / height_px;
    proof {
        assert(1 <= sw && width_px * sw <= img.width) by (nonlinear_arith)
            requires
                1 <= width_px <= img.width,
                sw == img.width as int / width_px as int,
        ;
        assert(1 <= sh && height_px * sh <= img.height) by (nonlinear_arith)
            requires
                1 <= height_px <= img.height,
                sh == img.height as int / height_px as int,
        ;
    }
    let mut out = border_row_vec(width_px);
    let mut r: usize = 0;
    while r < height_px
        invariant
            r <= height_px,
            out@ == border_row(width_px as int)
                + content_rows(fb, wi, ramp@, sw as int, sh as int, width_px as int, r as int),
            forall|i: int| 0 <= i < out@.len() ==> out@[i] < 0x80,
        decreases height_px - r,
    {
        proof {
            assert((r + 1) * sh <= height_px * sh) by (nonlinear_arith)
                requires
                    r + 1 <= height_px,
                    1 <= sh,
            ;
        }
        let mut row = content_row_vec(img, ramp, sw, sh, r, width_px);
        out.append(&mut row);
        proof {
            assert(out@ =~= border_row(width_px as int)
                + content_rows(fb, wi, ramp@, sw as int, sh as int, width_px as int, r as int + 1));
        }
        r = r + 1;
    }
    let mut bottom = border_row_vec(width_px);
    out.append(&mut bottom);
    proof {
        assert(out@ =~= text_frame(fb, wi, ramp@, sw as int, sh as int, height_px as int,
            width_px as int));
    }
    out
}

/// Relies on `String::from_utf8`: bytes below `0x80` are valid UTF-8 and
/// decode to exactly one character per byte, with the same code points.
#[verifier::external_body]
fn ascii_bytes_to_string(bytes: Vec<u8>) -> (s: String)
    requires
        forall|i: int| 0 <= i < bytes@.len() ==> bytes@[i] < 0x80,
    ensures
        s@ == chars_of(bytes@),
{
    match String::from_utf8(bytes) {
        Ok(s) => s,
        Err(_) => String::new(),
    }
}

/// Quantizes a framebuffer into a text frame of `height_px` rows by
/// `width_px` columns over the given glyph ramp.
pub fn render_text(img: &Framebuffer, width_px: usize, height_px: usize, ramp: &Vec<u8>) -> (out: String)
    requires
        img.wf(),
        1 <= width_px <= img.width,
        1 <= height_px <= img.height,
        1 <= ramp@.len() <= RAMP_LEN_LIMIT,
        forall|i: int| 0 <= i < ramp@.len() ==> ramp@[i] < 0x80,
    ensures
        out@ == chars_of(text_frame(img.data@, img.width as int, ramp@,
            (img.width / width_px) as int, (img.height / height_px) as int,
            height_px as int, width_px as int)),
{
    let bytes = render_frame(img, width_px, height_px, ramp);
    ascii_bytes_to_string(bytes)
}

/// Quantizes a grayscale framebuffer into a text frame of `height_px` rows by
/// `width_px` columns over the default brightness ramp.
pub fn gray_to_ascii(img: &Framebuffer, width_px: usize, height_px: usize) -> (out: String)
    requires
        img.wf(),
        1 <= width_px <= img.width,
        1 <= height_px <= img.height,
    ensures
        out@ == chars_of(text_frame(img.data@, img.width as int, default_ramp_spec(),
            (img.width / width_px) as int, (img.height / height_px) as int,
            height_px as int, width_px as int)),
{
    let ramp = default_ramp();
    render_text(img, width_px, height_px, &ramp)
}

} // verus!
