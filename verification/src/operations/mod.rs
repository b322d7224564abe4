//! The operations of the engine.

pub mod compose;
pub mod converters;
pub mod generators;
pub mod inventory;
pub mod legacy;
pub mod output;
pub mod register;
pub mod shapes;
pub mod sources;
pub mod transform;
