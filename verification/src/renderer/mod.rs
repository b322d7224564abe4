//! The renderer boundary: every renderable value becomes a frame here, and
//! only here. Graph operations keep their natural value types.

use vstd::prelude::*;
use std::sync::Arc;
use crate::compositor::{OperationError, Value};
use crate::graphics::{copy_bytes, grey_byte, mask_to_rgba, share, Frame, Image, Mask, Video};
use crate::text::owned;

verus! {

/// A value that can be shown as a frame.
pub trait ToRenderFrame {
    /// Whether the frame this value would become fits in memory at all.
    spec fn fits_as_frame(&self) -> bool;

    /// This value as a frame suitable for rendering.
    fn to_render_frame(&self) -> Result<Arc<Frame>, OperationError>
        requires
            self.fits_as_frame(),
    ;
}

/// A frame is shown as itself.
impl ToRenderFrame for Arc<Frame> {
    open spec fn fits_as_frame(&self) -> bool {
        true
    }

    fn to_render_frame(&self) -> (r: Result<Arc<Frame>, OperationError>)
        ensures
            r == Ok::<Arc<Frame>, OperationError>(*self),
    {
        Ok(share(self))
    }
}

/// A still image is shown as a frame with its pixels and size.
impl ToRenderFrame for Arc<Image> {
    open spec fn fits_as_frame(&self) -> bool {
        true
    }

    fn to_render_frame(&self) -> (r: Result<Arc<Frame>, OperationError>)
        ensures
            r matches Ok(f) && f.pixels@ == self.pixels@ && f.width == self.width && f.height == self.height,
    {
        Ok(Arc::new(Frame { pixels: copy_bytes(&self.pixels), width: self.width, height: self.height }))
    }
}

/// A mask is shown as grey: each mask byte in all four channels.
impl ToRenderFrame for Arc<Mask> {
    open spec fn fits_as_frame(&self) -> bool {
        self.pixels@.len() * 4 <= usize::MAX
    }

    fn to_render_frame(&self) -> (r: Result<Arc<Frame>, OperationError>)
        ensures
            r matches Ok(f) && f.width == self.width && f.height == self.height
                && f.pixels@.len() == self.pixels@.len() * 4
                && forall|j: int| 0 <= j < f.pixels@.len() ==> #[trigger] f.pixels@[j] == grey_byte(self.pixels@, j),
    {
        let pixels = mask_to_rgba(&self.pixels);
        Ok(Arc::new(Frame { pixels, width: self.width, height: self.height }))
    }
}

/// A clip is shown as its first frame; a clip without frames is a missing
/// source.
impl ToRenderFrame for Arc<Video> {
    open spec fn fits_as_frame(&self) -> bool {
        true
    }

    fn to_render_frame(&self) -> (r: Result<Arc<Frame>, OperationError>)
        ensures
            self.frames@.len() == 0 ==> (r matches Err(OperationError::SourceNotFound(m))
                && m@ == "Video contains no frames"@),
            self.frames@.len() > 0 ==> (r matches Ok(f) && f.pixels@ == self.frames@[0].pixels@
                && f.width == self.frames@[0].width && f.height == self.frames@[0].height),
    {
        if self.frames.len() == 0 {
            return Err(OperationError::SourceNotFound(owned("Video contains no frames")));
        }
        let first = &self.frames[0];
        Ok(Arc::new(Frame { pixels: copy_bytes(&first.pixels), width: first.width, height: first.height }))
    }
}

/// Convert a value to a frame for rendering: frames, images, masks and
/// clips as their own conversions say; any other value is the wrong type.
pub fn to_render_frame(value: &Value) -> (r: Result<Arc<Frame>, OperationError>)
    requires
        value matches Value::Mask(m) ==> m.pixels@.len() * 4 <= usize::MAX,
    ensures
        match value {
            Value::Frame(f) => r == Ok::<Arc<Frame>, OperationError>(*f),
            Value::Image(i) => r matches Ok(f) && f.pixels@ == i.pixels@ && f.width == i.width
                && f.height == i.height,
            Value::Mask(m) => r matches Ok(f) && f.width == m.width && f.height == m.height
                && f.pixels@.len() == m.pixels@.len() * 4
                && forall|j: int| 0 <= j < f.pixels@.len() ==> #[trigger] f.pixels@[j] == grey_byte(m.pixels@, j),
            Value::Video(v) => (v.frames@.len() == 0 ==> (r matches Err(OperationError::SourceNotFound(m))
                && m@ == "Video contains no frames"@)) && (v.frames@.len() > 0 ==> (r matches Ok(f)
                && f.pixels@ == v.frames@[0].pixels@ && f.width == v.frames@[0].width
                && f.height == v.frames@[0].height)),
            _ => r matches Err(OperationError::WrongValueType),
        },
{
    match value {
        Value::Frame(frame) => frame.to_render_frame(),
        Value::Image(image) => image.to_render_frame(),
        Value::Mask(mask) => mask.to_render_frame(),
        Value::Video(video) => video.to_render_frame(),
        _ => Err(OperationError::WrongValueType),
    }
}

} // verus!
