//! The named input slots of an operation.

use vstd::prelude::*;

verus! {

/// One named input slot of an operation.
#[derive(Clone, Copy, Debug, PartialEq, Eq, Structural)]
pub enum Input {
    Source,
    SourceB,
    Foreground,
    Background,
    Mask,
    Reference,
}

/// The wire name of each input slot.
pub open spec fn input_name(input: Input) -> &'static str {
    match input {
        Input::Source => "SOURCE",
        Input::SourceB => "SOURCE_B",
        Input::Foreground => "FOREGROUND",
        Input::Background => "BACKGROUND",
        Input::Mask => "MASK",
        Input::Reference => "REFERENCE",
    }
}

impl Input {
    /// The wire name of this input slot.
    pub fn name(&self) -> (r: &'static str)
        ensures
            r == input_name(*self),
    {
        match self {
            Input::Source => "SOURCE",
            Input::SourceB => "SOURCE_B",
            Input::Foreground => "FOREGROUND",
            Input::Background => "BACKGROUND",
            Input::Mask => "MASK",
            Input::Reference => "REFERENCE",
        }
    }
}

} // verus!
