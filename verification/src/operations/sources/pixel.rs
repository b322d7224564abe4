//! A fixed in-memory frame, held for a source that has already produced
//! its pixels.

use vstd::prelude::*;
use crate::graphics::Frame;

verus! {

/// Holds one frame.
pub struct PixelSource {
    frame: Frame,
}

impl PixelSource {
    /// The frame held.
    pub closed spec fn held(&self) -> Frame {
        self.frame
    }

    /// Hold `frame`.
    pub fn new(frame: Frame) -> (r: Self)
        ensures
            r.held() == frame,
    {
        Self { frame }
    }

    /// The frame held.
    pub fn frame(&self) -> (r: &Frame)
        ensures
            *r == self.held(),
    {
        &self.frame
    }

    /// The frame held, for changing in place.
    pub fn frame_mut(&mut self) -> (r: &mut Frame)
        ensures
            *r == old(self).held(),
            final(self).held() == *final(r),
    {
        &mut self.frame
    }

    /// Give up the frame held.
    pub fn into_frame(self) -> (r: Frame)
        ensures
            r == self.held(),
    {
        self.frame
    }
}

} // verus!
