//! Output operations.

pub mod render;

pub use render::Render;
