//! Reading 8-bit pixels off a wire, and blending a processed buffer back
//! toward its original through a MASK's coverage.

use vstd::prelude::*;
use crate::compositor::{OperationError, Value};
use crate::graphics::{ImageFormat, U8Image};
use crate::text::owned;

verus! {

/// An 8-bit channel taken from `original` toward `processed` by coverage
/// `alpha`: 0 keeps `original`, 255 takes `processed`, anything between
/// mixes the two and rounds to the nearest level.
pub open spec fn mask_blend(original: u8, processed: u8, alpha: u8) -> u8 {
    ((original as int * (255 - alpha as int) + processed as int * alpha as int + 127) / 255) as u8
}

/// Byte `j` of `processed` masked toward `original`, by the alpha channel
/// of the same pixel of `mask`.
pub open spec fn masked_byte(original: Seq<u8>, processed: Seq<u8>, mask: Seq<u8>, j: int) -> u8 {
    mask_blend(original[j], processed[j], mask[(j / 4) * 4 + 3])
}

/// Whole-pixel form of `mask_blend`: every channel of `processed` blended
/// toward `original` by one coverage value.
pub open spec fn blend_pixel(original: [u8; 4], processed: [u8; 4], alpha: u8) -> [u8; 4] {
    [
        mask_blend(original[0], processed[0], alpha),
        mask_blend(original[1], processed[1], alpha),
        mask_blend(original[2], processed[2], alpha),
        mask_blend(original[3], processed[3], alpha),
    ]
}

/// The blend stays within a channel's range, and its three fixed points:
/// no coverage keeps the original, full coverage takes the processed
/// value, and blending a value with itself changes nothing.
pub proof fn lemma_mask_blend(original: u8, processed: u8, alpha: u8)
    ensures
        0 <= original as int * (255 - alpha as int) + processed as int * alpha as int + 127 <= 65152,
        (original as int * (255 - alpha as int) + processed as int * alpha as int + 127) / 255 <= 255,
        mask_blend(original, processed, 0) == original,
        mask_blend(original, processed, 255) == processed,
        mask_blend(original, original, alpha) == original,
{
    let o = original as int;
    let p = processed as int;
    let a = alpha as int;
    assert(0 <= o * (255 - a) <= 255 * 255) by (nonlinear_arith)
        requires 0 <= o <= 255, 0 <= a <= 255;
    assert(0 <= p * a <= 255 * a) by (nonlinear_arith)
        requires 0 <= p <= 255, 0 <= a <= 255;
    assert(o * (255 - a) + p * a <= 255 * 255) by (nonlinear_arith)
        requires 0 <= o <= 255, 0 <= p <= 255, 0 <= a <= 255;
    assert(o * (255 - a) + o * a == 255 * o) by (nonlinear_arith);
    assert((255 * o + 127) / 255 == o) by (nonlinear_arith)
        requires 0 <= o;
}

/// One channel of `mask_blend`, computed.
fn blend_byte(original: u8, processed: u8, alpha: u8) -> (r: u8)
    ensures
        r == mask_blend(original, processed, alpha),
{
    proof {
        lemma_mask_blend(original, processed, alpha);
    }
    let keep = (original as u32) * (255 - alpha as u32);
    let take = (processed as u32) * (alpha as u32);
    ((keep + take + 127) / 255) as u8
}

/// Blend `processed` back toward `original` through `mask`'s alpha channel.
/// Without a mask the processed buffer is the result. With one, the three
/// buffers must be the same length, a whole number of pixels; otherwise the
/// MASK does not fit its SOURCE and the request is refused.
pub fn apply_mask(original: &[u8], processed: Vec<u8>, mask: Option<&[u8]>) -> (r: Result<Vec<u8>, OperationError>)
    ensures
        match mask {
            None => r matches Ok(out) && out@ == processed@,
            Some(m) => if original@.len() == processed@.len() && m@.len() == original@.len() && original@.len() % 4 == 0 {
                r matches Ok(out) && out@.len() == original@.len() && forall|j: int|
                    0 <= j < out@.len() ==> #[trigger] out@[j] == masked_byte(original@, processed@, m@, j)
            } else {
                r matches Err(OperationError::InvalidInputType(_))
            },
        },
{
    let m = match mask {
        None => return Ok(processed),
        Some(m) => m,
    };
    let n = original.len();
    if processed.len() != n || m.len() != n || n % 4 != 0 {
        return Err(OperationError::InvalidInputType(owned("MASK must match the size of the image it masks")));
    }
    let mut out: Vec<u8> = Vec::new();
    let mut j: usize = 0;
    while j < n
        invariant
            n == original@.len(),
            n == processed@.len(),
            n == m@.len(),
            n % 4 == 0,
            j <= n,
            out@.len() == j,
            forall|k: int| 0 <= k < j ==> #[trigger] out@[k] == masked_byte(original@, processed@, m@, k),
        decreases n - j,
    {
        let a = j / 4 * 4 + 3;
        assert(a < n) by {
            assert((j as int / 4) * 4 <= j as int);
            assert((j as int / 4) * 4 + 4 <= n) by {
                assert(n as int == (n as int / 4) * 4);
                assert(j as int / 4 < n as int / 4);
            }
        }
        let b = blend_byte(original[j], processed[j], m[a]);
        out.push(b);
        j = j + 1;
    }
    Ok(out)
}

/// The RGBA bytes and size a wired value carries, for the kinds that carry
/// 8-bit RGBA pixels: images and frames.
pub open spec fn value_rgba(v: Value) -> Option<(Seq<u8>, u32, u32)> {
    match v {
        Value::Image(img) => Some((img.pixels@, img.width, img.height)),
        Value::Frame(f) => Some((f.pixels@, f.width, f.height)),
        _ => None,
    }
}

/// The RGBA bytes and size of an image or frame; `None` for any other value.
pub fn rgba_of(v: &Value) -> (r: Option<(&[u8], u32, u32)>)
    ensures
        match value_rgba(*v) {
            Some((p, w, h)) => r matches Some((q, rw, rh)) && q@ == p && rw == w && rh == h,
            None => r is None,
        },
{
    match v {
        Value::Image(img) => Some((img.pixels.as_slice(), img.width, img.height)),
        Value::Frame(f) => Some((f.pixels.as_slice(), f.width, f.height)),
        _ => None,
    }
}

/// `processed` masked toward `original` byte by byte; see `masked_byte`.
pub open spec fn masked(original: Seq<u8>, processed: Seq<u8>, mask: Seq<u8>) -> Seq<u8> {
    Seq::new(original.len(), |j: int| masked_byte(original, processed, mask, j))
}

/// A mask whose every pixel has zero alpha leaves the original untouched,
/// and one whose every pixel has full alpha gives the processed buffer
/// exactly as if there were no mask.
pub proof fn lemma_clear_and_full_masks(original: Seq<u8>, processed: Seq<u8>, mask: Seq<u8>)
    requires
        processed.len() == original.len(),
        mask.len() == original.len(),
        original.len() % 4 == 0,
    ensures
        (forall|p: int| 0 <= p < original.len() / 4 ==> #[trigger] mask[p * 4 + 3] == 0) ==> masked(original, processed, mask) == original,
        (forall|p: int| 0 <= p < original.len() / 4 ==> #[trigger] mask[p * 4 + 3] == 255) ==> masked(original, processed, mask) == processed,
{
    assert forall|j: int| 0 <= j < original.len() implies (#[trigger] (j / 4)) * 4 + 3 < original.len() && 0 <= j / 4 < original.len() / 4 by {
        assert(j / 4 < original.len() / 4);
    }
    if forall|p: int| 0 <= p < original.len() / 4 ==> #[trigger] mask[p * 4 + 3] == 0 {
        assert forall|j: int| 0 <= j < original.len() implies #[trigger] masked(original, processed, mask)[j] == original[j] by {
            assert(mask[(j / 4) * 4 + 3] == 0);
            lemma_mask_blend(original[j], processed[j], 0);
        }
        assert(masked(original, processed, mask) =~= original);
    }
    if forall|p: int| 0 <= p < original.len() / 4 ==> #[trigger] mask[p * 4 + 3] == 255 {
        assert forall|j: int| 0 <= j < original.len() implies #[trigger] masked(original, processed, mask)[j] == processed[j] by {
            assert(mask[(j / 4) * 4 + 3] == 255);
            lemma_mask_blend(original[j], processed[j], 255);
        }
        assert(masked(original, processed, mask) =~= processed);
    }
}

/// Whether `v` is an 8-bit RGBA image `width` by `height` holding `pixels`.
pub open spec fn image_value(v: Value, pixels: Seq<u8>, width: u32, height: u32) -> bool {
    v matches Value::Image(img) && img.pixels@ == pixels && img.width == width && img.height == height
        && img.format == ImageFormat::Rgba8
}

/// Wrap a buffer as an 8-bit RGBA image value.
pub fn image_of(pixels: Vec<u8>, width: u32, height: u32) -> (r: Value)
    ensures
        image_value(r, pixels@, width, height),
{
    Value::Image(std::sync::Arc::new(U8Image { pixels, width, height, format: ImageFormat::Rgba8 }))
}

} // verus!
