//! Per-channel blend arithmetic of the compositing modes on 8-bit channels.

pub mod blend_mode;

pub use blend_mode::BlendMode;
