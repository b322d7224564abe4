//! Images become frames: the same pixels at the same size.

use vstd::prelude::*;
use std::sync::Arc;
use crate::graphics::{copy_bytes, Frame, Image};

verus! {

/// Convert an Image to a Frame: the same pixels at the same size.
pub fn image_to_frame(image: &Image) -> (frame: Frame)
    ensures
        frame.pixels@ == image.pixels@,
        frame.width == image.width,
        frame.height == image.height,
{
    Frame { pixels: copy_bytes(&image.pixels), width: image.width, height: image.height }
}

/// Create an `Arc<Frame>` from an `Arc<Image>`: the same pixels at the same
/// size.
pub fn arc_image_to_arc_frame(image: Arc<Image>) -> (frame: Arc<Frame>)
    ensures
        frame.pixels@ == image.pixels@,
        frame.width == image.width,
        frame.height == image.height,
{
    Arc::new(image_to_frame(&image))
}

} // verus!
