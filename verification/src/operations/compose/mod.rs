//! Operations that combine two inputs.

pub mod add;
pub mod subtract;

pub use add::Add;
pub use subtract::Subtract;
