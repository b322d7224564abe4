//! Verified core of a node-based image compositing engine: pixel buffers
//! and their conversions, channel and blend arithmetic on 8-bit pixels,
//! bounding-box geometry, the operation catalogue and its parameters.

pub mod text;
pub mod graphics;
pub mod compositor;
pub mod operations;
pub mod renderer;
pub mod ui;
