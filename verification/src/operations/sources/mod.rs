//! Source operations and where their pixels come from.

pub mod camera;
pub mod image;
pub mod pixel;
pub mod video;

use vstd::prelude::*;
use crate::compositor::OperationError;
use crate::graphics::Frame;

pub use camera::CameraSource;
pub use image::ImageSource;
pub use video::Video;

verus! {

/// Where a source operation's pixels come from right now: a host-side
/// stream (a camera, a playing video element) read at the graph's current
/// render size. Implemented by the host; what a read returns is the
/// host's own business.
pub trait PixelSource {
    /// Whether `r` is an outcome this source may give for a read at
    /// `width` by `height`. A source may say what its reads give; one that
    /// does not may give any outcome.
    open spec fn gives(&self, width: u32, height: u32, r: Result<Frame, OperationError>) -> bool {
        true
    }

    fn read(&self, width: u32, height: u32) -> (r: Result<Frame, OperationError>)
        ensures
            self.gives(width, height, r),
    ;
}

} // verus!
