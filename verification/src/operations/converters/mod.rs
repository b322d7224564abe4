//! Conversions between pixel containers.

pub mod image_to_frame;

pub use image_to_frame::{arc_image_to_arc_frame, image_to_frame};
