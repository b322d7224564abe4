//! What the user interface is told, as plain values.

pub mod utils;
pub mod views;
