//! The graph-facing vocabulary every operation shares: boxes, inputs,
//! values, errors, descriptors and the evaluation context.

pub mod bbox;
pub mod context;
pub mod error;
pub mod graph;
pub mod input;
pub mod metadata;
pub mod registry;
pub mod value;

pub use context::{Context, Meta};
pub use error::OperationError;
pub use input::Input;
pub use metadata::OperationDescriptor;
pub use value::Value;
pub use registry::OperationRegistry;
