//! RENDER: the menu entry that triggers recording of the output canvas.
//! It has no inputs and no parameters; recording itself happens on the
//! host side, so running it only yields a harmless `true`.

use vstd::prelude::*;
use crate::compositor::{Context, Input, OperationDescriptor, OperationError, Value};
use crate::compositor::metadata::{OperationCategory, OperationMetadata, OutputKind, ParameterDescriptor};

verus! {

/// RENDER: records whatever the output canvas shows.
pub struct Render;

impl Render {
    pub open spec fn spec_descriptor() -> OperationDescriptor {
        OperationDescriptor {
            id: "render",
            menu: "OUTPUT",
            label: "RENDER",
            action: None,
            ui_action: None,
            create_node: Some("render"),
            submenu: None,
        }
    }

    pub fn new() -> (r: Self) {
        Render
    }

    /// The menu entry: OUTPUT / RENDER, created as node "render".
    pub fn descriptor(&self) -> (r: OperationDescriptor)
        ensures
            r == Self::spec_descriptor(),
    {
        OperationDescriptor {
            id: "render",
            menu: "OUTPUT",
            label: "RENDER",
            action: None,
            ui_action: None,
            create_node: Some("render"),
            submenu: None,
        }
    }

    /// No inputs, one boolean output, in the Output category.
    pub fn metadata(&self) -> (r: OperationMetadata)
        ensures
            crate::operations::shapes::is_metadata_of(r, crate::operations::inventory::OperationKind::Render),
            r.display_name == "Render",
            r.category == OperationCategory::Output,
            r.inputs@.len() == 0,
            r.outputs@ == seq![OutputKind::Boolean],
    {
        let mut outputs: Vec<OutputKind> = Vec::new();
        outputs.push(OutputKind::Boolean);
        OperationMetadata {
            display_name: "Render",
            category: OperationCategory::Output,
            inputs: Vec::new(),
            outputs,
        }
    }

    /// No editable parameters.
    pub fn parameters(&self) -> (r: Vec<ParameterDescriptor>)
        ensures
            r@.len() == 0,
    {
        Vec::new()
    }

    /// The edit screen stays reachable even with nothing to edit, for its
    /// execute button.
    pub fn supports_edit(&self) -> (r: bool)
        ensures
            r,
    {
        true
    }

    /// Running RENDER yields a single `true`.
    pub fn execute(&self, ctx: &Context, inputs: &[(Input, Value)]) -> (r: Result<Vec<Value>, OperationError>)
        ensures
            r matches Ok(values) && values@.len() == 1 && values@[0] matches Value::Boolean(true),
    {
        let mut values: Vec<Value> = Vec::new();
        values.push(Value::Boolean(true));
        Ok(values)
    }
}

impl Default for Render {
    fn default() -> (r: Self) {
        Self::new()
    }
}

} // verus!
