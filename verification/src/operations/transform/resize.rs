//! RESIZE's sampling algorithm parameter. The zoom itself samples at
//! floating-point positions and runs on the host.

use vstd::prelude::*;
use crate::text::{ascii_upper, is_ascii_text, text_eq, to_upper, uppercase_of};

verus! {

/// How RESIZE samples its source.
#[derive(Clone, Copy, Debug, PartialEq, Eq, Structural)]
pub enum ResizeAlgorithm {
    NearestNeighbor,
}

/// The option names of the resize algorithms, in menu order.
pub open spec fn spec_resize_algorithms() -> Seq<&'static str> {
    seq!["NEAREST NEIGHBOR"]
}

/// The option names of the resize algorithms.
pub fn resize_algorithms() -> (r: &'static [&'static str])
    ensures
        r@ == spec_resize_algorithms(),
{
    let r: &'static [&'static str] = &["NEAREST NEIGHBOR"];
    assert(r@ =~= spec_resize_algorithms());
    r
}

/// The option name of each value.
pub open spec fn resize_algorithm_name(v: ResizeAlgorithm) -> &'static str {
    match v {
        ResizeAlgorithm::NearestNeighbor => "NEAREST NEIGHBOR",
    }
}

/// The value an upper-cased name stands for.
pub open spec fn resize_algorithm_named(u: Seq<char>) -> Option<ResizeAlgorithm> {
    if u == "NEAREST NEIGHBOR"@ {
        Some(ResizeAlgorithm::NearestNeighbor)
    } else {
        None
    }
}

impl Default for ResizeAlgorithm {
    fn default() -> (r: Self)
        ensures
            r == ResizeAlgorithm::NearestNeighbor,
    {
        ResizeAlgorithm::NearestNeighbor
    }
}

impl ResizeAlgorithm {
    /// The option name of this value.
    pub fn to_str(&self) -> (r: &'static str)
        ensures
            r == resize_algorithm_name(*self),
    {
        match self {
            ResizeAlgorithm::NearestNeighbor => "NEAREST NEIGHBOR",
        }
    }

    /// Parse an option name, ignoring case.
    pub fn from_str(s: &str) -> (r: Option<Self>)
        ensures
            r == resize_algorithm_named(uppercase_of(s@)),
            is_ascii_text(s@) ==> r == resize_algorithm_named(ascii_upper(s@)),
    {
        let upper = to_upper(s);
        if text_eq(upper.as_str(), "NEAREST NEIGHBOR") {
            Some(ResizeAlgorithm::NearestNeighbor)
        } else {
            None
        }
    }
}

/// Every value's own name, upper-cased, parses back to it.
pub proof fn lemma_resize_algorithm_round_trip(v: ResizeAlgorithm)
    ensures
        is_ascii_text(resize_algorithm_name(v)@),
        resize_algorithm_named(ascii_upper(resize_algorithm_name(v)@)) == Some(v),
{
    reveal_strlit("NEAREST NEIGHBOR");
    assert(ascii_upper("NEAREST NEIGHBOR"@) =~= "NEAREST NEIGHBOR"@);
}

} // verus!
