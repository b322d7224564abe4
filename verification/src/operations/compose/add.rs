//! ADD: foreground plus background, per channel, unclamped. The pixel
//! arithmetic itself is floating point and runs on the host.

use vstd::prelude::*;
use crate::compositor::{Input, OperationDescriptor, OperationError, Value};
use crate::compositor::metadata::{
    InputDescriptor, OperationCategory, OperationMetadata, OutputKind, ParameterDescriptor,
    pixel_kinds, spec_pixel_kinds,
};
use crate::text::owned;

verus! {

/// ADD: sums two inputs channel by channel.
pub struct Add;

impl Add {
    pub open spec fn spec_descriptor() -> OperationDescriptor {
        OperationDescriptor {
            id: "add",
            menu: "COMPOSE",
            label: "ADD",
            action: None,
            ui_action: None,
            create_node: Some("add"),
            submenu: None,
        }
    }

    pub fn new() -> (r: Self) {
        Add
    }

    /// The menu entry: COMPOSE / ADD.
    pub fn descriptor(&self) -> (r: OperationDescriptor)
        ensures
            r == Self::spec_descriptor(),
    {
        OperationDescriptor {
            id: "add",
            menu: "COMPOSE",
            label: "ADD",
            action: None,
            ui_action: None,
            create_node: Some("add"),
            submenu: None,
        }
    }

    /// FOREGROUND, BACKGROUND, MASK, each taking pixels; one float-image output.
    pub fn metadata(&self) -> (r: OperationMetadata)
        ensures
            crate::operations::shapes::is_metadata_of(r, crate::operations::inventory::OperationKind::Add),
            r.display_name == "Add",
            r.category == OperationCategory::Color,
            r.inputs@.len() == 3,
            r.inputs@[0].kind == Input::Foreground,
            r.inputs@[0].accepts@ == spec_pixel_kinds(),
            r.inputs@[1].kind == Input::Background,
            r.inputs@[1].accepts@ == spec_pixel_kinds(),
            r.inputs@[2].kind == Input::Mask,
            r.inputs@[2].accepts@ == spec_pixel_kinds(),
            r.outputs@ == seq![OutputKind::FloatImage],
    {
        let mut inputs: Vec<InputDescriptor> = Vec::new();
        inputs.push(InputDescriptor { kind: Input::Foreground, accepts: pixel_kinds() });
        inputs.push(InputDescriptor { kind: Input::Background, accepts: pixel_kinds() });
        inputs.push(InputDescriptor { kind: Input::Mask, accepts: pixel_kinds() });
        let mut outputs: Vec<OutputKind> = Vec::new();
        outputs.push(OutputKind::FloatImage);
        OperationMetadata { display_name: "Add", category: OperationCategory::Color, inputs, outputs }
    }

    /// No editable parameters.
    pub fn parameters(&self) -> (r: Vec<ParameterDescriptor>)
        ensures
            r@.len() == 0,
    {
        Vec::new()
    }

    /// There is no parameter to read.
    pub fn get_parameter(&self, name: &str) -> (r: Option<Value>)
        ensures
            r is None,
    {
        None
    }

    /// Every parameter name is unknown.
    pub fn set_parameter(&mut self, name: &str, value: Value) -> (r: Result<(), OperationError>)
        ensures
            r matches Err(OperationError::UnknownParameter(n)) && n@ == name@,
    {
        Err(OperationError::UnknownParameter(owned(name)))
    }
}

impl Default for Add {
    fn default() -> (r: Self) {
        Self::new()
    }
}

} // verus!
