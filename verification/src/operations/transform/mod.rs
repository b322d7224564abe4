//! Operations that transform a single source.

pub mod blur;
pub mod invert;
pub mod merge;
pub mod multiply;
pub mod resize;
pub mod rgb_to_hsv;
pub mod shuffle;

pub use invert::Invert;
pub use merge::Merge;
pub use multiply::Multiply;
pub use rgb_to_hsv::RgbToHsv;
pub use shuffle::Shuffle;
