//! A video source: the current frame of a host-side stream, read at the
//! graph's render size and handed on as an image.

use vstd::prelude::*;
use std::sync::Arc;
use crate::compositor::OperationError;
use crate::graphics::{Frame, Image, ImageFormat};
use crate::operations::sources::PixelSource;

verus! {

/// The image a read frame becomes: the same pixels at the same size, as
/// RGBA.
pub fn frame_into_image(frame: Frame) -> (r: Arc<Image>)
    ensures
        r.pixels@ == frame.pixels@,
        r.width == frame.width,
        r.height == frame.height,
        r.format == ImageFormat::Rgba8,
{
    Arc::new(Image { pixels: frame.pixels, width: frame.width, height: frame.height, format: ImageFormat::Rgba8 })
}

/// A video source reading frames from a host-side stream (`S` is usually
/// `dyn PixelSource`).
pub struct Video<S: PixelSource + ?Sized> {
    source: Arc<S>,
}

impl<S: PixelSource + ?Sized> Video<S> {
    /// The stream this source reads from.
    pub closed spec fn stream(&self) -> Arc<S> {
        self.source
    }

    /// A video source reading from `source`.
    pub fn new(source: Arc<S>) -> (r: Self)
        ensures
            r.stream() == source,
    {
        Self { source }
    }

    /// The stream's current frame at `width` by `height`, as an image; a
    /// failed read is passed on unchanged. A frame read becomes an RGBA
    /// image with its pixels and size (see `frame_into_image`).
    pub fn image_at(&self, width: u32, height: u32) -> (r: Result<Arc<Image>, OperationError>)
        ensures
            match r {
                Ok(image) => exists|frame: Frame|
                    self.stream().gives(width, height, Ok(frame)) && image.pixels@ == frame.pixels@
                        && image.width == frame.width && image.height == frame.height
                        && image.format == ImageFormat::Rgba8,
                Err(e) => self.stream().gives(width, height, Err(e)),
            },
    {
        let frame = self.source.read(width, height)?;
        Ok(frame_into_image(frame))
    }
}

} // verus!
