//! State kept by the generator operations.

pub mod ghost;
pub mod ring;

pub use ghost::FrameHistory;
pub use ring::RingPalette;
