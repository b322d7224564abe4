//! Pixel containers and the integer pixel-buffer operations on them.
//!
//! Every buffer is packed row-major: pixel `p` of an image `width` wide sits
//! at column `p % width`, row `p / width`, and an RGBA buffer holds its four
//! channels at `4 * p .. 4 * p + 4`.

pub mod mask;

use vstd::prelude::*;
use std::sync::Arc;
use vstd::arithmetic::div_mod::{
    lemma_fundamental_div_mod_converse_div,
    lemma_fundamental_div_mod_converse_mod,
};

verus! {

/// Layout of an image's pixel buffer.
#[derive(Clone, Copy, Debug, PartialEq, Eq, Structural)]
pub enum ImageFormat {
    Rgba8,
}

/// An 8-bit RGBA image.
#[derive(Debug)]
pub struct U8Image {
    pub pixels: Vec<u8>,
    pub width: u32,
    pub height: u32,
    pub format: ImageFormat,
}

/// The engine's plain image is the 8-bit RGBA image.
pub type Image = U8Image;

/// One frame of a live or decoded video stream, 8-bit RGBA.
#[derive(Debug)]
pub struct Frame {
    pub pixels: Vec<u8>,
    pub width: u32,
    pub height: u32,
}

/// A single-channel coverage mask, one byte per pixel.
#[derive(Debug)]
pub struct Mask {
    pub pixels: Vec<u8>,
    pub width: u32,
    pub height: u32,
}

/// A decoded clip: its frames in playback order.
#[derive(Debug)]
pub struct Video {
    pub frames: Vec<Arc<U8Image>>,
}

/// Number of bytes of an RGBA buffer `width` by `height`.
pub open spec fn rgba_len(width: int, height: int) -> int {
    width * height * 4
}

impl U8Image {
    /// The pixel buffer holds exactly one RGBA pixel per position.
    pub open spec fn wf(&self) -> bool {
        self.pixels@.len() == rgba_len(self.width as int, self.height as int)
    }
}

impl Frame {
    /// The pixel buffer holds exactly one RGBA pixel per position.
    pub open spec fn wf(&self) -> bool {
        self.pixels@.len() == rgba_len(self.width as int, self.height as int)
    }
}

/// Column of buffer byte `j` in an RGBA buffer `width` wide.
pub open spec fn byte_x(j: int, width: int) -> int {
    (j / 4) % width
}

/// Row of buffer byte `j` in an RGBA buffer `width` wide.
pub open spec fn byte_y(j: int, width: int) -> int {
    (j / 4) / width
}

/// Channel (0 red .. 3 alpha) of buffer byte `j`.
pub open spec fn byte_channel(j: int) -> int {
    j % 4
}

/// Byte `c` of pixel `(x, y)` lies at `(y * width + x) * 4 + c`, and that
/// byte's coordinates read back as `(x, y, c)`.
pub proof fn lemma_byte_coords(width: int, x: int, y: int, c: int)
    requires
        0 <= x < width,
        0 <= y,
        0 <= c < 4,
    ensures
        ((y * width + x) * 4 + c) / 4 == y * width + x,
        byte_channel((y * width + x) * 4 + c) == c,
        byte_x((y * width + x) * 4 + c, width) == x,
        byte_y((y * width + x) * 4 + c, width) == y,
{
    let p = y * width + x;
    lemma_fundamental_div_mod_converse_div((p * 4 + c), 4, p, c);
    lemma_fundamental_div_mod_converse_mod((p * 4 + c), 4, p, c);
    assert(p * 4 + c == (y * width + x) * 4 + c);
    lemma_fundamental_div_mod_converse_div(p, width, y, x);
    lemma_fundamental_div_mod_converse_mod(p, width, y, x);
}

/// Every byte of a `width` by `height` RGBA buffer is channel `j % 4` of
/// the pixel at its column and row, and that pixel lies in the frame.
pub proof fn lemma_byte_decompose(width: int, height: int, j: int)
    requires
        0 < width,
        0 <= height,
        0 <= j < rgba_len(width, height),
    ensures
        0 <= byte_x(j, width) < width,
        0 <= byte_y(j, width) < height,
        j == (byte_y(j, width) * width + byte_x(j, width)) * 4 + byte_channel(j),
{
    let p = j / 4;
    assert(j == p * 4 + j % 4);
    assert(p == (p / width) * width + p % width) by {
        vstd::arithmetic::div_mod::lemma_fundamental_div_mod(p, width);
        assert(width * (p / width) == (p / width) * width) by (nonlinear_arith);
    }
    assert(0 <= p < width * height) by {
        assert(width * height * 4 == (width * height) * 4) by (nonlinear_arith);
    }
    assert(p / width < height) by {
        vstd::arithmetic::div_mod::lemma_multiply_divide_lt(p, width, height);
    }
    assert(0 <= p / width) by {
        vstd::arithmetic::div_mod::lemma_div_pos_is_pos(p, width);
    }
}

/// Byte `c` of pixel `(x, y)` lies inside a `width` by `height` buffer.
pub proof fn lemma_byte_in_bounds(width: int, height: int, x: int, y: int, c: int)
    requires
        0 <= x < width,
        0 <= y < height,
        0 <= c < 4,
    ensures
        0 <= (y * width + x) * 4 + c < rgba_len(width, height),
{
    assert(y * width + x < height * width) by (nonlinear_arith)
        requires 0 <= x < width, 0 <= y < height;
    assert(0 <= y * width) by (nonlinear_arith)
        requires 0 <= y, 0 <= width;
    assert(height * width * 4 == width * height * 4) by (nonlinear_arith);
}

/// The length of a buffer after `y` full rows and `x` more pixels.
proof fn lemma_row_step(width: int, y: int)
    ensures
        (y * width + width) * 4 == ((y + 1) * width) * 4,
        ((y + 1) * width + 0) * 4 == ((y + 1) * width) * 4,
{
    assert((y * width + width) == (y + 1) * width) by (nonlinear_arith);
}

/// Calls `Arc::clone`: another handle to the same allocation, so the value
/// seen through it is the one seen through `a`.
#[verifier::external_body]
pub(crate) fn share<T: ?Sized>(a: &Arc<T>) -> (r: Arc<T>)
    ensures
        r == *a,
{
    a.clone()
}

/// A byte-for-byte copy of a buffer.
pub fn copy_bytes(v: &Vec<u8>) -> (r: Vec<u8>)
    ensures
        r@ == v@,
{
    let r = v.clone();
    assert forall|i: int| 0 <= i < v@.len() implies r@[i] == v@[i] by {
        assert(cloned::<u8>(v[i], r[i]));
    }
    assert(r@ =~= v@);
    r
}

/// Whether the checker tile containing `(x, y)` takes the first colour.
pub open spec fn checker_is_first(x: int, y: int, tile: int) -> bool {
    ((x / tile) + (y / tile)) % 2 == 0
}

/// Byte `j` of a checker pattern `width` wide with square tiles of side
/// `tile`: the top-left tile and every tile an even number of steps away
/// from it take colour `a`, the others colour `b`.
pub open spec fn checker_byte(width: int, tile: int, a: [u8; 4], b: [u8; 4], j: int) -> u8 {
    if checker_is_first(byte_x(j, width), byte_y(j, width), tile) {
        a@[byte_channel(j)]
    } else {
        b@[byte_channel(j)]
    }
}

/// The checker is made of square tiles of side `tile`: every pixel of one
/// tile has the same four bytes, and pixel `(x, y)` takes the first colour
/// exactly when its tile column plus its tile row is even (so the top-left
/// tile is first, and neighbouring tiles differ).
pub proof fn lemma_checker_tiles(
    width: int,
    tile: int,
    a: [u8; 4],
    b: [u8; 4],
    x1: int,
    y1: int,
    x2: int,
    y2: int,
    c: int,
)
    requires
        tile >= 1,
        0 <= x1 < width,
        0 <= x2 < width,
        0 <= y1,
        0 <= y2,
        0 <= c < 4,
    ensures
        checker_byte(width, tile, a, b, (y1 * width + x1) * 4 + c) == if (x1 / tile + y1 / tile) % 2 == 0 {
            a[c]
        } else {
            b[c]
        },
        x1 / tile == x2 / tile && y1 / tile == y2 / tile ==> checker_byte(width, tile, a, b, (y1 * width + x1) * 4 + c)
            == checker_byte(width, tile, a, b, (y2 * width + x2) * 4 + c),
{
    lemma_byte_coords(width, x1, y1, c);
    lemma_byte_coords(width, x2, y2, c);
}

/// An RGBA checker pattern `width` by `height` with square tiles of side
/// `tile`, alternating the colours `a` and `b`, starting with `a` at the
/// top-left corner.
pub fn checker_pattern(width: u32, height: u32, tile: u32, a: [u8; 4], b: [u8; 4]) -> (out: Vec<u8>)
    requires
        tile >= 1,
        rgba_len(width as int, height as int) <= u32::MAX,
    ensures
        out@.len() == rgba_len(width as int, height as int),
        forall|j: int|
            0 <= j < out@.len() ==> #[trigger] out@[j] == checker_byte(width as int, tile as int, a, b, j),
{
    let mut out: Vec<u8> = Vec::new();
    let mut y: u32 = 0;
    while y < height
        invariant
            tile >= 1,
            y <= height,
            out@.len() == ((y as int) * (width as int)) * 4,
            forall|j: int|
                0 <= j < out@.len() ==> #[trigger] out@[j] == checker_byte(width as int, tile as int, a, b, j),
        decreases height - y,
    {
        let mut x: u32 = 0;
        proof {
            assert(((y as int) * (width as int) + 0) * 4 == ((y as int) * (width as int)) * 4);
        }
        while x < width
            invariant
                tile >= 1,
                y < height,
                x <= width,
                out@.len() == ((y as int) * (width as int) + (x as int)) * 4,
                forall|j: int|
                    0 <= j < out@.len() ==> #[trigger] out@[j] == checker_byte(width as int, tile as int, a, b, j),
            decreases width - x,
        {
            let first = ((x / tile) as u64 + (y / tile) as u64) % 2 == 0;
            let color = if first { a } else { b };
            let ghost base = out@.len() as int;
            out.push(color[0]);
            out.push(color[1]);
            out.push(color[2]);
            out.push(color[3]);
            proof {
                assert forall|j: int| 0 <= j < out@.len() implies #[trigger] out@[j]
                    == checker_byte(width as int, tile as int, a, b, j) by {
                    if j >= base {
                        let c = j - base;
                        lemma_byte_coords(width as int, x as int, y as int, c);
                        assert(j == ((y as int) * (width as int) + (x as int)) * 4 + c);
                    }
                }
            }
            x = x + 1;
        }
        proof {
            lemma_row_step(width as int, y as int);
        }
        y = y + 1;
    }
    proof {
        assert((height as int) * (width as int) * 4 == rgba_len(width as int, height as int)) by (nonlinear_arith);
    }
    out
}

/// The opaque magenta of the missing-input placeholder.
pub open spec fn placeholder_first() -> [u8; 4] {
    [255u8, 0u8, 255u8, 255u8]
}

/// The opaque black of the missing-input placeholder.
pub open spec fn placeholder_second() -> [u8; 4] {
    [0u8, 0u8, 0u8, 255u8]
}

/// Side of one tile of the missing-input placeholder.
pub const PLACEHOLDER_TILE: u32 = 16;

/// Whether `img` is the missing-input placeholder at `width` by `height`: a
/// checker of 16-pixel magenta and black tiles, magenta first.
pub open spec fn is_placeholder(img: U8Image, width: u32, height: u32) -> bool {
    &&& img.width == width
    &&& img.height == height
    &&& img.format == ImageFormat::Rgba8
    &&& img.wf()
    &&& forall|j: int|
        0 <= j < img.pixels@.len() ==> #[trigger] img.pixels@[j] == checker_byte(
            width as int,
            PLACEHOLDER_TILE as int,
            placeholder_first(),
            placeholder_second(),
            j,
        )
}

impl U8Image {
    /// The placeholder shown where an operation has nothing wired in: a
    /// checker of 16-pixel magenta and black tiles at the requested size.
    pub fn missing(width: u32, height: u32) -> (out: Arc<U8Image>)
        requires
            rgba_len(width as int, height as int) <= u32::MAX,
        ensures
            is_placeholder(*out, width, height),
    {
        let pixels = checker_pattern(width, height, PLACEHOLDER_TILE, [255u8, 0u8, 255u8, 255u8], [0u8, 0u8, 0u8, 255u8]);
        Arc::new(U8Image { pixels, width, height, format: ImageFormat::Rgba8 })
    }
}

/// The size a `source_width` by `source_height` image takes when scaled
/// uniformly to fit inside `width` by `height`: as large as fits, rounded
/// down; an image with no pixels takes no room.
pub open spec fn fit_size(source_width: int, source_height: int, width: int, height: int) -> (int, int) {
    if source_width == 0 || source_height == 0 {
        (0, 0)
    } else if width * source_height <= height * source_width {
        (width, (source_height * width) / source_width)
    } else {
        ((source_width * height) / source_height, height)
    }
}

/// Byte `j` of `source` contain-fitted into a `width` by `height` canvas:
/// the scaled image sits centred (rounded towards the top-left), each of
/// its pixels sampling the source pixel it scales from; the uncovered
/// border is transparent black.
pub open spec fn fit_byte(source: Seq<u8>, source_width: int, source_height: int, width: int, height: int, j: int) -> u8 {
    let size = fit_size(source_width, source_height, width, height);
    let fw = size.0;
    let fh = size.1;
    let ox = (width - fw) / 2;
    let oy = (height - fh) / 2;
    let x = byte_x(j, width);
    let y = byte_y(j, width);
    if ox <= x < ox + fw && oy <= y < oy + fh {
        let sx = ((x - ox) * source_width) / fw;
        let sy = ((y - oy) * source_height) / fh;
        source[(sy * source_width + sx) * 4 + byte_channel(j)]
    } else {
        0
    }
}

/// The whole contain-fitted buffer.
pub open spec fn fit_pixels(source: Seq<u8>, source_width: int, source_height: int, width: int, height: int) -> Seq<u8> {
    Seq::new(rgba_len(width, height) as nat, |j: int| fit_byte(source, source_width, source_height, width, height, j))
}

/// The fitted size never exceeds the canvas.
proof fn lemma_fit_size_bounded(sw: int, sh: int, w: int, h: int)
    requires
        0 <= sw,
        0 <= sh,
        0 <= w,
        0 <= h,
    ensures
        0 <= fit_size(sw, sh, w, h).0 <= w,
        0 <= fit_size(sw, sh, w, h).1 <= h,
{
    if sw != 0 && sh != 0 {
        if w * sh <= h * sw {
            assert((sh * w) / sw <= h) by (nonlinear_arith)
                requires w * sh <= h * sw, 0 < sw, 0 <= w, 0 <= sh;
            assert(0 <= (sh * w) / sw) by (nonlinear_arith)
                requires 0 < sw, 0 <= w, 0 <= sh;
        } else {
            assert((sw * h) / sh <= w) by (nonlinear_arith)
                requires w * sh > h * sw, 0 < sh, 0 <= h, 0 <= sw;
            assert(0 <= (sw * h) / sh) by (nonlinear_arith)
                requires 0 < sh, 0 <= h, 0 <= sw;
        }
    }
}

/// Contain-fitting scales uniformly and as large as fits: an image with no
/// pixels takes no room; otherwise the fitted size stays within the
/// canvas and either fills its width, with the height scaled by the same
/// factor and rounded down, or fills its height, with the width scaled by
/// the same factor and rounded down.
pub proof fn lemma_fit_size_is_uniform(sw: int, sh: int, w: int, h: int)
    requires
        0 <= sw,
        0 <= sh,
        0 <= w,
        0 <= h,
    ensures
        sw == 0 || sh == 0 ==> fit_size(sw, sh, w, h) == (0int, 0int),
        sw > 0 && sh > 0 ==> {
            let fw = fit_size(sw, sh, w, h).0;
            let fh = fit_size(sw, sh, w, h).1;
            &&& 0 <= fw <= w
            &&& 0 <= fh <= h
            &&& (fw == w && fh == (sh * w) / sw) || (fh == h && fw == (sw * h) / sh)
        },
{
    lemma_fit_size_bounded(sw, sh, w, h);
}

/// Where each pixel of a contain-fitted canvas comes from: the fitted
/// image sits centred, its top-left corner at half the spare width and
/// half the spare height (rounded down); a canvas pixel inside it takes
/// the source pixel at its offset scaled back by the source-to-fitted
/// ratio on each axis, and every canvas pixel outside it is transparent
/// black.
pub proof fn lemma_fit_layout(source: Seq<u8>, sw: int, sh: int, w: int, h: int, x: int, y: int, c: int)
    requires
        0 < sw,
        0 < sh,
        0 <= x < w,
        0 <= y < h,
        0 <= c < 4,
    ensures
        ({
            let fw = fit_size(sw, sh, w, h).0;
            let fh = fit_size(sw, sh, w, h).1;
            let ox = (w - fw) / 2;
            let oy = (h - fh) / 2;
            fit_pixels(source, sw, sh, w, h)[(y * w + x) * 4 + c] == if ox <= x < ox + fw && oy <= y < oy + fh {
                source[((((y - oy) * sh) / fh) * sw + ((x - ox) * sw) / fw) * 4 + c]
            } else {
                0u8
            }
        }),
{
    lemma_byte_coords(w, x, y, c);
    lemma_byte_in_bounds(w, h, x, y, c);
}

/// Scaling an offset inside a span of `span` pixels to a span of `size`
/// pixels lands inside the target span.
proof fn lemma_scaled_offset(offset: int, span: int, size: int)
    requires
        0 <= offset < span,
        0 < size,
    ensures
        0 <= (offset * size) / span < size,
{
    assert(0 <= offset * size) by (nonlinear_arith)
        requires 0 <= offset, 0 < size;
    assert(offset * size < span * size) by (nonlinear_arith)
        requires 0 <= offset < span, 0 < size;
    let q = (offset * size) / span;
    assert(q * span <= offset * size) by (nonlinear_arith)
        requires q == (offset * size) / span, 0 < span, 0 <= offset * size;
    assert(0 <= q) by (nonlinear_arith)
        requires q == (offset * size) / span, 0 < span, 0 <= offset * size;
    if q >= size {
        assert(false) by (nonlinear_arith)
            requires
                q >= size,
                0 < span,
                q * span <= offset * size,
                offset * size < span * size;
    }
    assert(q < size);
}

impl U8Image {
    /// This image scaled uniformly (nearest neighbour) to fit inside a
    /// `width` by `height` canvas, centred, with a transparent border; the
    /// result is exactly `width` by `height`.
    pub fn contain_fit(&self, width: u32, height: u32) -> (out: U8Image)
        requires
            self.wf(),
            rgba_len(width as int, height as int) <= u32::MAX,
        ensures
            out.width == width,
            out.height == height,
            out.format == ImageFormat::Rgba8,
            out.wf(),
            out.pixels@ == fit_pixels(
                self.pixels@,
                self.width as int,
                self.height as int,
                width as int,
                height as int,
            ),
    {
        let sw = self.width as u64;
        let sh = self.height as u64;
        let w = width as u64;
        let h = height as u64;
        let ghost size = fit_size(sw as int, sh as int, w as int, h as int);
        proof {
            lemma_fit_size_bounded(sw as int, sh as int, w as int, h as int);
        }
        assert(w * sh <= u64::MAX && h * sw <= u64::MAX && sh * w <= u64::MAX && sw * h <= u64::MAX)
            by (nonlinear_arith)
            requires w < 0x1_0000_0000, h < 0x1_0000_0000, sw < 0x1_0000_0000, sh < 0x1_0000_0000;
        let (fw, fh): (u64, u64) = if sw == 0 || sh == 0 {
            (0, 0)
        } else if w * sh <= h * sw {
            (w, (sh * w) / sw)
        } else {
            ((sw * h) / sh, h)
        };
        assert(fw == size.0 && fh == size.1);
        let ox = (w - fw) / 2;
        let oy = (h - fh) / 2;
        let mut out: Vec<u8> = Vec::new();
        let mut y: u32 = 0;
        while y < height
            invariant
                self.wf(),
                sw == self.width,
                sh == self.height,
                w == width,
                h == height,
                fw == fit_size(sw as int, sh as int, w as int, h as int).0,
                fh == fit_size(sw as int, sh as int, w as int, h as int).1,
                fw <= w,
                fh <= h,
                ox == (w - fw) / 2,
                oy == (h - fh) / 2,
                y <= height,
                out@.len() == ((y as int) * (width as int)) * 4,
                forall|j: int|
                    0 <= j < out@.len() ==> #[trigger] out@[j] == fit_byte(
                        self.pixels@,
                        sw as int,
                        sh as int,
                        width as int,
                        height as int,
                        j,
                    ),
            decreases height - y,
        {
            let mut x: u32 = 0;
            assert(((y as int) * (width as int) + 0) * 4 == ((y as int) * (width as int)) * 4);
            while x < width
                invariant
                    self.wf(),
                    sw == self.width,
                    sh == self.height,
                    w == width,
                    h == height,
                    fw == fit_size(sw as int, sh as int, w as int, h as int).0,
                    fh == fit_size(sw as int, sh as int, w as int, h as int).1,
                    fw <= w,
                    fh <= h,
                    ox == (w - fw) / 2,
                    oy == (h - fh) / 2,
                    y < height,
                    x <= width,
                    out@.len() == ((y as int) * (width as int) + (x as int)) * 4,
                    forall|j: int|
                        0 <= j < out@.len() ==> #[trigger] out@[j] == fit_byte(
                            self.pixels@,
                            sw as int,
                            sh as int,
                            width as int,
                            height as int,
                            j,
                        ),
                decreases width - x,
            {
                let xx = x as u64;
                let yy = y as u64;
                let inside = ox <= xx && xx < ox + fw && oy <= yy && yy < oy + fh;
                let ghost base = out@.len() as int;
                if inside {
                    proof {
                        lemma_scaled_offset((xx - ox) as int, fw as int, sw as int);
                        lemma_scaled_offset((yy - oy) as int, fh as int, sh as int);
                    }
                    assert((xx - ox) * sw <= u64::MAX) by (nonlinear_arith)
                        requires xx - ox < 0x1_0000_0000, sw < 0x1_0000_0000;
                    assert((yy - oy) * sh <= u64::MAX) by (nonlinear_arith)
                        requires yy - oy < 0x1_0000_0000, sh < 0x1_0000_0000;
                    let sx = ((xx - ox) * sw) / fw;
                    let sy = ((yy - oy) * sh) / fh;
                    let mut c: usize = 0;
                    while c < 4
                        invariant
                            self.wf(),
                            sw == self.width,
                            sh == self.height,
                            sx < sw,
                            sy < sh,
                            c <= 4,
                            0 <= base,
                            out@.len() == base + c,
                            forall|j: int|
                                0 <= j < base ==> #[trigger] out@[j] == fit_byte(
                                    self.pixels@,
                                    sw as int,
                                    sh as int,
                                    width as int,
                                    height as int,
                                    j,
                                ),
                            forall|k: int| 0 <= k < c ==> #[trigger] out@[base + k]
                                == self.pixels@[((sy as int) * (sw as int) + (sx as int)) * 4 + k],
                        decreases 4 - c,
                    {
                        proof {
                            lemma_byte_in_bounds(sw as int, sh as int, sx as int, sy as int, c as int);
                        }
                        let ghost len = self.pixels@.len();
                        assert(len == self.pixels.len());
                        assert(0 <= (sy as int) * (sw as int)) by (nonlinear_arith)
                            requires 0 <= sy, 0 <= sw;
                        let row = (sy as usize) * (sw as usize);
                        let idx = (row + (sx as usize)) * 4 + c;
                        let v = self.pixels[idx];
                        let ghost prev = out@;
                        out.push(v);
                        proof {
                            assert(out@ == prev.push(v));
                            assert(prev.len() == base + c);
                            assert forall|k: int| 0 <= k < c + 1 implies #[trigger] out@[base + k]
                                == self.pixels@[((sy as int) * (sw as int) + (sx as int)) * 4 + k] by {
                                if k < c {
                                    assert(out@[base + k] == prev[base + k]);
                                }
                            }
                        }
                        c = c + 1;
                    }
                    proof {
                        assert forall|j: int| 0 <= j < out@.len() implies #[trigger] out@[j] == fit_byte(
                            self.pixels@,
                            sw as int,
                            sh as int,
                            width as int,
                            height as int,
                            j,
                        ) by {
                            if j >= base {
                                let k = j - base;
                                lemma_byte_coords(width as int, x as int, y as int, k);
                                assert(j == ((y as int) * (width as int) + (x as int)) * 4 + k);
                                assert(out@[base + k] == self.pixels@[((sy as int) * (sw as int) + (sx as int)) * 4 + k]);
                            }
                        }
                    }
                } else {
                    out.push(0);
                    out.push(0);
                    out.push(0);
                    out.push(0);
                    proof {
                        assert forall|j: int| 0 <= j < out@.len() implies #[trigger] out@[j] == fit_byte(
                            self.pixels@,
                            sw as int,
                            sh as int,
                            width as int,
                            height as int,
                            j,
                        ) by {
                            if j >= base {
                                let k = j - base;
                                lemma_byte_coords(width as int, x as int, y as int, k);
                                assert(j == ((y as int) * (width as int) + (x as int)) * 4 + k);
                            }
                        }
                    }
                }
                x = x + 1;
            }
            proof {
                lemma_row_step(width as int, y as int);
            }
            y = y + 1;
        }
        proof {
            assert((height as int) * (width as int) * 4 == rgba_len(width as int, height as int)) by (nonlinear_arith);
            assert(out@ =~= fit_pixels(self.pixels@, self.width as int, self.height as int, width as int, height as int));
        }
        U8Image { pixels: out, width, height, format: ImageFormat::Rgba8 }
    }
}

/// Byte `j` of a mask spread to RGBA: every channel of pixel `j / 4` is that
/// pixel's mask byte.
pub open spec fn grey_byte(mask: Seq<u8>, j: int) -> u8 {
    mask[j / 4]
}

/// Spread a single-channel buffer to RGBA, repeating each byte in all four
/// channels.
pub fn mask_to_rgba(mask: &Vec<u8>) -> (out: Vec<u8>)
    requires
        mask@.len() * 4 <= usize::MAX,
    ensures
        out@.len() == mask@.len() * 4,
        forall|j: int| 0 <= j < out@.len() ==> #[trigger] out@[j] == grey_byte(mask@, j),
{
    let mut out: Vec<u8> = Vec::new();
    let mut i: usize = 0;
    while i < mask.len()
        invariant
            i <= mask@.len(),
            out@.len() == (i as int) * 4,
            forall|j: int| 0 <= j < out@.len() ==> #[trigger] out@[j] == grey_byte(mask@, j),
        decreases mask@.len() - i,
    {
        let byte = mask[i];
        let ghost base = out@.len() as int;
        out.push(byte);
        out.push(byte);
        out.push(byte);
        out.push(byte);
        proof {
            assert forall|j: int| 0 <= j < out@.len() implies #[trigger] out@[j] == grey_byte(mask@, j) by {
                if j >= base {
                    lemma_fundamental_div_mod_converse_div(j, 4, i as int, j - base);
                }
            }
        }
        i = i + 1;
    }
    out
}

} // verus!

verus! {

/// Whether pixel `(x, y)` of a `width` by `height` frame lies in `area`
/// (clipped to the frame).
pub open spec fn in_work_area(area: crate::compositor::bbox::Rect, width: int, height: int, x: int, y: int) -> bool {
    area.spec_intersect(crate::compositor::bbox::Rect::spec_full(width, height)).covers(x, y)
}

/// The four bytes of pixel `p` of an RGBA buffer, as an array.
pub open spec fn pixel_at<T>(buffer: Seq<T>, p: int) -> [T; 4] {
    [buffer[p * 4], buffer[p * 4 + 1], buffer[p * 4 + 2], buffer[p * 4 + 3]]
}

/// The four bytes of pixel `(x, y)` of an RGBA buffer `width` wide.
pub open spec fn pixel_of<T>(buffer: Seq<T>, width: int, x: int, y: int) -> [T; 4] {
    pixel_at(buffer, y * width + x)
}

/// Compute an RGBA buffer only inside a work area: every pixel of `area`
/// (clipped to the frame) is what `f` returns for it, every other pixel is
/// `original`'s. Also returns how many pixels `f` computed.
pub fn compute_within_bbox<T: Copy, F: Fn(u32, u32) -> [T; 4]>(
    width: u32,
    height: u32,
    area: crate::compositor::bbox::Rect,
    original: &[T],
    f: F,
) -> (r: (Vec<T>, u64))
    requires
        width <= i32::MAX,
        height <= i32::MAX,
        original@.len() == rgba_len(width as int, height as int),
        forall|x: u32, y: u32|
            in_work_area(area, width as int, height as int, x as int, y as int) ==> #[trigger] f.requires((x, y)),
    ensures
        r.0@.len() == original@.len(),
        r.1 == area.spec_intersect(crate::compositor::bbox::Rect::spec_full(width as int, height as int)).spec_area(),
        forall|x: int, y: int|
            0 <= x < width && 0 <= y < height ==> if in_work_area(area, width as int, height as int, x, y) {
                f.ensures((x as u32, y as u32), #[trigger] pixel_of(r.0@, width as int, x, y))
            } else {
                pixel_of(r.0@, width as int, x, y) == pixel_of(original@, width as int, x, y)
            },
{
    let full = crate::compositor::bbox::Rect::full(width, height);
    let clip = area.intersect(&full);
    let mut out = vstd::slice::slice_to_vec(original);
    let mut count: u64 = 0;
    if clip.is_empty() {
        return (out, count);
    }
    let x0 = clip.x0 as u32;
    let x1 = clip.x1 as u32;
    let y0 = clip.y0 as u32;
    let y1 = clip.y1 as u32;
    let mut y = y0;
    while y < y1
        invariant
            x0 < x1 <= width,
            y0 < y1 <= height,
            width <= i32::MAX,
            height <= i32::MAX,
            y0 <= y <= y1,
            clip == area.spec_intersect(crate::compositor::bbox::Rect::spec_full(width as int, height as int)),
            clip.x0 == x0 && clip.x1 == x1 && clip.y0 == y0 && clip.y1 == y1,
            out@.len() == original@.len(),
            original@.len() == rgba_len(width as int, height as int),
            count == ((y - y0) as int) * ((x1 - x0) as int),
            forall|x: u32, y: u32|
                in_work_area(area, width as int, height as int, x as int, y as int) ==> #[trigger] f.requires((x, y)),
            forall|px: int, py: int|
                0 <= px < width && 0 <= py < height ==> if in_work_area(area, width as int, height as int, px, py)
                    && py < y {
                    f.ensures((px as u32, py as u32), #[trigger] pixel_of(out@, width as int, px, py))
                } else {
                    pixel_of(out@, width as int, px, py) == pixel_of(original@, width as int, px, py)
                },
        decreases y1 - y,
    {
        let mut x = x0;
        while x < x1
            invariant
                x0 < x1 <= width,
                y0 <= y < y1 <= height,
                width <= i32::MAX,
                height <= i32::MAX,
                x0 <= x <= x1,
                clip == area.spec_intersect(crate::compositor::bbox::Rect::spec_full(width as int, height as int)),
                clip.x0 == x0 && clip.x1 == x1 && clip.y0 == y0 && clip.y1 == y1,
                out@.len() == original@.len(),
                original@.len() == rgba_len(width as int, height as int),
                count == ((y - y0) as int) * ((x1 - x0) as int) + (x - x0),
                forall|x: u32, y: u32|
                    in_work_area(area, width as int, height as int, x as int, y as int) ==> #[trigger] f.requires((x, y)),
                forall|px: int, py: int|
                    0 <= px < width && 0 <= py < height ==> if in_work_area(area, width as int, height as int, px, py)
                        && (py < y || (py == y && px < x)) {
                        f.ensures((px as u32, py as u32), #[trigger] pixel_of(out@, width as int, px, py))
                    } else {
                        pixel_of(out@, width as int, px, py) == pixel_of(original@, width as int, px, py)
                    },
            decreases x1 - x,
        {
            assert(in_work_area(area, width as int, height as int, x as int, y as int));
            let px = f(x, y);
            proof {
                lemma_byte_in_bounds(width as int, height as int, x as int, y as int, 3);
            }
            let n = out.len();
            assert(0 <= (y as int) * (width as int)) by (nonlinear_arith)
                requires 0 <= y, 0 <= width;
            let row = (y as usize) * (width as usize);
            let base = (row + (x as usize)) * 4;
            let ghost before = out@;
            out.set(base, px[0]);
            out.set(base + 1, px[1]);
            out.set(base + 2, px[2]);
            out.set(base + 3, px[3]);
            proof {
                assert(pixel_of(out@, width as int, x as int, y as int) =~= px);
                assert forall|qx: int, qy: int|
                    0 <= qx < width && 0 <= qy < height implies if in_work_area(area, width as int, height as int, qx, qy)
                        && (qy < y || (qy == y && qx < x + 1)) {
                        f.ensures((qx as u32, qy as u32), #[trigger] pixel_of(out@, width as int, qx, qy))
                    } else {
                        pixel_of(out@, width as int, qx, qy) == pixel_of(original@, width as int, qx, qy)
                    } by {
                    if qx != x || qy != y {
                        lemma_pixel_index_injective(width as int, qx, qy, x as int, y as int);
                        lemma_byte_in_bounds(width as int, height as int, qx, qy, 3);
                        lemma_pixels_apart(width as int, qx, qy, x as int, y as int);
                        assert(pixel_of(out@, width as int, qx, qy) =~= pixel_of(before, width as int, qx, qy));
                    }
                }
            }
            assert(((y - y0) as int) * ((x1 - x0) as int) + (x - x0) < 0x8000_0000_0000_0000) by (nonlinear_arith)
                requires
                    0 <= y - y0 < 0x8000_0000,
                    0 <= x1 - x0 <= 0x8000_0000,
                    0 <= x - x0 < 0x8000_0000;
            count = count + 1;
            x = x + 1;
        }
        proof {
            assert(((y + 1 - y0) as int) * ((x1 - x0) as int) == ((y - y0) as int) * ((x1 - x0) as int) + (x1 - x0))
                by (nonlinear_arith);
        }
        y = y + 1;
    }
    proof {
        assert(((y1 - y0) as int) * ((x1 - x0) as int) == ((x1 - x0) as int) * ((y1 - y0) as int)) by (nonlinear_arith);
    }
    (out, count)
}

/// The byte ranges of two distinct pixels do not overlap.
pub proof fn lemma_pixels_apart(width: int, ax: int, ay: int, bx: int, by: int)
    requires
        0 <= ax < width,
        0 <= bx < width,
        0 <= ay,
        0 <= by,
        ax != bx || ay != by,
    ensures
        (ay * width + ax) * 4 + 4 <= (by * width + bx) * 4 || (by * width + bx) * 4 + 4 <= (ay * width + ax) * 4,
{
    lemma_pixel_index_injective(width, ax, ay, bx, by);
}

/// Distinct pixels of a row-major buffer have distinct indices, and their
/// byte ranges do not overlap.
pub proof fn lemma_pixel_index_injective(width: int, ax: int, ay: int, bx: int, by: int)
    requires
        0 <= ax < width,
        0 <= bx < width,
        0 <= ay,
        0 <= by,
        ax != bx || ay != by,
    ensures
        ay * width + ax != by * width + bx,
{
    if ay == by {
    } else if ay < by {
        assert(ay * width + ax < by * width + bx) by (nonlinear_arith)
            requires ay < by, 0 <= ax < width, 0 <= bx;
    } else {
        assert(by * width + bx < ay * width + ax) by (nonlinear_arith)
            requires by < ay, 0 <= bx < width, 0 <= ax;
    }
}

} // verus!
