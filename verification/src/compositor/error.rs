//! Why an operation refused a request.

use vstd::prelude::*;

verus! {

/// Why an operation refused a request.
#[derive(Debug)]
pub enum OperationError {
    /// A source the operation reads from is not there (no stream
    /// attached, no image loaded, an empty clip).
    SourceNotFound(String),
    /// A value of a kind the caller cannot use here.
    WrongValueType,
    /// An input carried a value the operation cannot read, or inputs did
    /// not fit together.
    InvalidInputType(String),
    /// No parameter of that name.
    UnknownParameter(String),
    /// The parameter exists but rejects this value: name, then value.
    InvalidParameterValue(String, String),
    /// The parameter exists but takes another kind of value.
    InvalidParameterType(String),
    /// A required input is not wired.
    MissingInput(String),
}

} // verus!
