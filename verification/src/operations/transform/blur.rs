//! BLUR's content extent. A box blur of radius `r` can pull real content
//! up to `r` pixels beyond its source's own non-default region, so BLUR
//! reports (and, under a mask, computes within) its source's box grown by
//! the radius and clipped to the frame. The blur itself is floating point
//! and runs on the host.

use vstd::prelude::*;
use crate::compositor::bbox::Rect;

verus! {

/// BLUR's own content extent: the source's reported box (the whole frame
/// when none was reported), grown by `radius` on every side and clipped to
/// the frame; an empty source box stays empty.
pub open spec fn spec_natural_bbox(source_box: Option<Rect>, width: int, height: int, radius: int) -> Rect {
    let source = match source_box {
        Some(b) => b,
        None => Rect::spec_full(width, height),
    };
    if source.spec_is_empty() {
        Rect::spec_empty()
    } else {
        source.spec_grow(radius).spec_intersect(Rect::spec_full(width, height))
    }
}

/// BLUR's own content extent; see `spec_natural_bbox`.
pub fn natural_bbox(source_box: Option<Rect>, width: u32, height: u32, radius: u32) -> (r: Rect)
    requires
        width <= i32::MAX,
        height <= i32::MAX,
        radius <= i32::MAX,
        source_box matches Some(b) ==> b.can_grow(radius as int),
        source_box is None ==> Rect::spec_full(width as int, height as int).can_grow(radius as int),
    ensures
        r == spec_natural_bbox(source_box, width as int, height as int, radius as int),
{
    let source = match source_box {
        Some(b) => b,
        None => Rect::full(width, height),
    };
    if source.is_empty() {
        return Rect::empty();
    }
    source.grow(radius as i32).intersect(&Rect::full(width, height))
}

/// The extent stays inside the frame and covers every pixel of the source
/// box itself and of its radius-wide margin that lies in the frame.
pub proof fn lemma_natural_bbox_covers_margin(
    source: Rect,
    width: int,
    height: int,
    radius: int,
    x: int,
    y: int,
)
    requires
        0 <= width <= i32::MAX,
        0 <= height <= i32::MAX,
        0 <= radius,
        source.can_grow(radius),
        !source.spec_is_empty(),
    ensures
        spec_natural_bbox(Some(source), width, height, radius).covers(x, y) <==> (
            source.x0 - radius <= x < source.x1 + radius
            && source.y0 - radius <= y < source.y1 + radius
            && 0 <= x < width && 0 <= y < height),
{
}

} // verus!
