//! What the user interface is told about operations, inputs, outputs,
//! PATCH mappings and node validation: plain text tags and numbers.

use vstd::prelude::*;
use crate::compositor::graph::NodeValidation;
use crate::compositor::input::input_name;
use crate::text::{decimal, decimal_text, owned};

verus! {

/// One registered operation: its menu entry and its category's name.
pub struct OperationView {
    pub id: &'static str,
    pub menu: &'static str,
    pub label: &'static str,
    pub action: Option<&'static str>,
    pub ui_action: Option<&'static str>,
    pub create_node: Option<&'static str>,
    pub category: &'static str,
    pub submenu: Option<&'static str>,
}

/// One input of a node: its wire name, the node feeding it if any, and the
/// output kinds it accepts (none listed means any).
pub struct InputView {
    pub name: &'static str,
    pub source: Option<u32>,
    pub accepts: Vec<&'static str>,
}

/// One declared output of a node: its index, label and kind.
pub struct OutputView {
    pub index: u32,
    pub name: String,
    pub kind: String,
}

/// One PATCH property's mapping: which reference output drives it, and how.
pub struct PatchMappingView {
    pub output_index: u32,
    pub mode: &'static str,
}

/// A node's validation state as a tag plus a readable detail.
pub struct NodeValidationView {
    pub state: &'static str,
    pub detail: Option<String>,
}

/// The tag of each validation state.
pub open spec fn validation_state(v: NodeValidation) -> &'static str {
    match v {
        NodeValidation::Valid => "valid",
        NodeValidation::MissingInput(_) => "missing_input",
        NodeValidation::UnknownInput(_) => "unknown_input",
        NodeValidation::InvalidDependency(_) => "invalid_dependency",
        NodeValidation::Cycle => "cycle",
    }
}

/// The detail of each validation state: the missing input's name, or the
/// offending node's slot index in decimal.
pub open spec fn validation_detail(v: NodeValidation) -> Option<Seq<char>> {
    match v {
        NodeValidation::Valid => None,
        NodeValidation::MissingInput(input) => Some(input_name(input)@),
        NodeValidation::UnknownInput(id) => Some(decimal_text(id.index as nat)),
        NodeValidation::InvalidDependency(id) => Some(decimal_text(id.index as nat)),
        NodeValidation::Cycle => None,
    }
}

impl NodeValidationView {
    /// The view of a validation state.
    pub fn from_validation(state: NodeValidation) -> (r: Self)
        ensures
            r.state == validation_state(state),
            match validation_detail(state) {
                Some(d) => r.detail matches Some(t) && t@ == d,
                None => r.detail is None,
            },
    {
        match state {
            NodeValidation::Valid => NodeValidationView { state: "valid", detail: None },
            NodeValidation::MissingInput(input) => NodeValidationView {
                state: "missing_input",
                detail: Some(owned(input.name())),
            },
            NodeValidation::UnknownInput(id) => NodeValidationView {
                state: "unknown_input",
                detail: Some(decimal(id.index())),
            },
            NodeValidation::InvalidDependency(id) => NodeValidationView {
                state: "invalid_dependency",
                detail: Some(decimal(id.index())),
            },
            NodeValidation::Cycle => NodeValidationView { state: "cycle", detail: None },
        }
    }
}

} // verus!
