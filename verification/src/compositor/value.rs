//! The values that travel along the graph's wires.

use vstd::prelude::*;
use std::sync::Arc;
use crate::graphics::{Frame, Mask, U8Image, Video};

verus! {

/// A value carried along a wire between operations.
#[derive(Debug)]
pub enum Value {
    Image(Arc<U8Image>),
    Frame(Arc<Frame>),
    Mask(Arc<Mask>),
    Video(Arc<Video>),
    Boolean(bool),
    Text(String),
}

} // verus!
