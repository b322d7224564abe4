//! The small value types the graph hands to the user interface: node
//! identities, per-node validation states and PATCH mapping modes.

use vstd::prelude::*;
use crate::compositor::input::Input;

verus! {

/// A node's identity: its slot index and the generation of the node that
/// occupies the slot.
#[derive(Clone, Copy, Debug, PartialEq, Eq, Structural)]
pub struct NodeId {
    pub index: u32,
    pub generation: u32,
}

impl NodeId {
    /// The node's slot index.
    pub fn index(&self) -> (r: u32)
        ensures
            r == self.index,
    {
        self.index
    }
}

/// Whether a node is safe to evaluate.
#[derive(Clone, Copy, Debug, PartialEq, Eq, Structural)]
pub enum NodeValidation {
    Valid,
    /// A required input is not wired.
    MissingInput(Input),
    /// An input is wired to a node that does not exist.
    UnknownInput(NodeId),
    /// A node this one depends on is itself invalid.
    InvalidDependency(NodeId),
    /// The node depends on itself.
    Cycle,
}

/// How a PATCH mapping applies its reference value to a property.
#[derive(Clone, Copy, Debug, PartialEq, Eq, Structural)]
pub enum PatchMode {
    Replace,
    Add,
    Subtract,
}

} // verus!
