//! The shape each operation type declares: its display name, the inputs it
//! takes with the output kinds each accepts, and the kinds it outputs.

use vstd::prelude::*;
use crate::compositor::input::Input;
use crate::compositor::metadata::{
    InputDescriptor, OperationMetadata, OutputKind, pixel_kinds, spec_pixel_kinds,
};
use crate::operations::inventory::{category_of, OperationKind};

verus! {

/// The display name each operation type declares.
pub open spec fn display_name_of(kind: OperationKind) -> &'static str {
    match kind {
        OperationKind::Lissajous => "Lissajous",
        OperationKind::Sine => "Sine",
        OperationKind::Square => "Square",
        OperationKind::Add => "Add",
        OperationKind::Mix => "Mix",
        OperationKind::Multiply => "Multiply",
        OperationKind::Patch => "Patch",
        OperationKind::Screen => "Screen",
        OperationKind::Subtract => "Subtract",
        OperationKind::Checkerboard => "Checkerboard",
        OperationKind::Ghosts => "Ghost",
        OperationKind::Ring => "Ring",
        OperationKind::ChromaKey => "Chroma Key",
        OperationKind::HueKey => "Hue Key",
        OperationKind::Render => "Render",
        OperationKind::CameraSource => "Camera Source",
        OperationKind::ImageSource => "Image Source",
        OperationKind::Blur => "Blur",
        OperationKind::Clamp => "Clamp",
        OperationKind::Invert => "Invert",
        OperationKind::Move => "Move",
        OperationKind::Resize => "Resize",
        OperationKind::RgbToHsv => "RGB to HSV",
        OperationKind::Shuffle => "Shuffle",
    }
}

/// The inputs each operation type declares, in order: the slot, and the
/// output kinds it accepts (none listed means any).
pub open spec fn inputs_of(kind: OperationKind) -> Seq<(Input, Seq<OutputKind>)> {
    let px = spec_pixel_kinds();
    match kind {
        OperationKind::Add | OperationKind::Multiply | OperationKind::Screen | OperationKind::Subtract =>
            seq![(Input::Foreground, px), (Input::Background, px), (Input::Mask, px)],
        OperationKind::Mix => seq![(Input::Foreground, px), (Input::Background, px)],
        OperationKind::Patch => seq![(Input::Source, Seq::empty()), (Input::Reference, seq![OutputKind::Number])],
        OperationKind::HueKey => seq![(Input::Source, px), (Input::Reference, px), (Input::Mask, px)],
        OperationKind::Ghosts | OperationKind::ChromaKey | OperationKind::Blur | OperationKind::Invert
        | OperationKind::Move | OperationKind::Shuffle => seq![(Input::Source, px), (Input::Mask, px)],
        OperationKind::Clamp | OperationKind::Resize | OperationKind::RgbToHsv => seq![(Input::Source, px)],
        _ => Seq::empty(),
    }
}

/// The output kinds each operation type declares, in order.
pub open spec fn outputs_of(kind: OperationKind) -> Seq<OutputKind> {
    match kind {
        OperationKind::Lissajous => seq![OutputKind::Number, OutputKind::Number],
        OperationKind::Sine | OperationKind::Square => seq![OutputKind::Number],
        OperationKind::Checkerboard | OperationKind::Ring | OperationKind::ImageSource | OperationKind::Clamp
        | OperationKind::Invert | OperationKind::Shuffle => seq![OutputKind::Image],
        OperationKind::Render => seq![OutputKind::Boolean],
        OperationKind::CameraSource => seq![OutputKind::Frame],
        _ => seq![OutputKind::FloatImage],
    }
}

/// Whether `m` is the metadata operation type `kind` declares.
pub open spec fn is_metadata_of(m: OperationMetadata, kind: OperationKind) -> bool {
    &&& m.display_name == display_name_of(kind)
    &&& m.category == category_of(kind)
    &&& m.inputs@.len() == inputs_of(kind).len()
    &&& forall|i: int|
        0 <= i < m.inputs@.len() ==> (#[trigger] m.inputs@[i]).kind == inputs_of(kind)[i].0
            && m.inputs@[i].accepts@ == inputs_of(kind)[i].1
    &&& m.outputs@ == outputs_of(kind)
}

/// An input of `kind` that accepts any pixel-carrying value.
fn pixel_input(kind: Input) -> (r: InputDescriptor)
    ensures
        r.kind == kind,
        r.accepts@ == spec_pixel_kinds(),
{
    InputDescriptor { kind, accepts: pixel_kinds() }
}

/// The single output kind `Number`, as a slice.
fn number_kind() -> (r: &'static [OutputKind])
    ensures
        r@ == seq![OutputKind::Number],
{
    let r: &'static [OutputKind] = &[OutputKind::Number];
    assert(r@ =~= seq![OutputKind::Number]);
    r
}

/// No kinds listed: any output may be wired in.
fn any_kind() -> (r: &'static [OutputKind])
    ensures
        r@ == Seq::<OutputKind>::empty(),
{
    let r: &'static [OutputKind] = &[];
    assert(r@ =~= Seq::<OutputKind>::empty());
    r
}

/// The declared inputs of `kind`, built.
fn inputs_for(kind: OperationKind) -> (r: Vec<InputDescriptor>)
    ensures
        r@.len() == inputs_of(kind).len(),
        forall|i: int|
            0 <= i < r@.len() ==> (#[trigger] r@[i]).kind == inputs_of(kind)[i].0 && r@[i].accepts@ == inputs_of(kind)[i].1,
{
    let mut r: Vec<InputDescriptor> = Vec::new();
    match kind {
        OperationKind::Add | OperationKind::Multiply | OperationKind::Screen | OperationKind::Subtract => {
            r.push(pixel_input(Input::Foreground));
            r.push(pixel_input(Input::Background));
            r.push(pixel_input(Input::Mask));
        },
        OperationKind::Mix => {
            r.push(pixel_input(Input::Foreground));
            r.push(pixel_input(Input::Background));
        },
        OperationKind::Patch => {
            r.push(InputDescriptor { kind: Input::Source, accepts: any_kind() });
            r.push(InputDescriptor { kind: Input::Reference, accepts: number_kind() });
        },
        OperationKind::HueKey => {
            r.push(pixel_input(Input::Source));
            r.push(pixel_input(Input::Reference));
            r.push(pixel_input(Input::Mask));
        },
        OperationKind::Ghosts | OperationKind::ChromaKey | OperationKind::Blur | OperationKind::Invert
        | OperationKind::Move | OperationKind::Shuffle => {
            r.push(pixel_input(Input::Source));
            r.push(pixel_input(Input::Mask));
        },
        OperationKind::Clamp | OperationKind::Resize | OperationKind::RgbToHsv => {
            r.push(pixel_input(Input::Source));
        },
        _ => {},
    }
    r
}

/// The declared outputs of `kind`, built.
fn outputs_for(kind: OperationKind) -> (r: Vec<OutputKind>)
    ensures
        r@ == outputs_of(kind),
{
    let mut r: Vec<OutputKind> = Vec::new();
    match kind {
        OperationKind::Lissajous => {
            r.push(OutputKind::Number);
            r.push(OutputKind::Number);
        },
        OperationKind::Sine | OperationKind::Square => r.push(OutputKind::Number),
        OperationKind::Checkerboard | OperationKind::Ring | OperationKind::ImageSource | OperationKind::Clamp
        | OperationKind::Invert | OperationKind::Shuffle => r.push(OutputKind::Image),
        OperationKind::Render => r.push(OutputKind::Boolean),
        OperationKind::CameraSource => r.push(OutputKind::Frame),
        _ => r.push(OutputKind::FloatImage),
    }
    assert(r@ =~= outputs_of(kind));
    r
}

impl OperationKind {
    /// The display name this operation type declares.
    pub fn display_name(&self) -> (r: &'static str)
        ensures
            r == display_name_of(*self),
    {
        match self {
            OperationKind::Lissajous => "Lissajous",
            OperationKind::Sine => "Sine",
            OperationKind::Square => "Square",
            OperationKind::Add => "Add",
            OperationKind::Mix => "Mix",
            OperationKind::Multiply => "Multiply",
            OperationKind::Patch => "Patch",
            OperationKind::Screen => "Screen",
            OperationKind::Subtract => "Subtract",
            OperationKind::Checkerboard => "Checkerboard",
            OperationKind::Ghosts => "Ghost",
            OperationKind::Ring => "Ring",
            OperationKind::ChromaKey => "Chroma Key",
            OperationKind::HueKey => "Hue Key",
            OperationKind::Render => "Render",
            OperationKind::CameraSource => "Camera Source",
            OperationKind::ImageSource => "Image Source",
            OperationKind::Blur => "Blur",
            OperationKind::Clamp => "Clamp",
            OperationKind::Invert => "Invert",
            OperationKind::Move => "Move",
            OperationKind::Resize => "Resize",
            OperationKind::RgbToHsv => "RGB to HSV",
            OperationKind::Shuffle => "Shuffle",
        }
    }

    /// The metadata this operation type declares: display name, category,
    /// inputs and outputs.
    pub fn metadata(&self) -> (r: OperationMetadata)
        ensures
            is_metadata_of(r, *self),
    {
        OperationMetadata {
            display_name: self.display_name(),
            category: self.category(),
            inputs: inputs_for(*self),
            outputs: outputs_for(*self),
        }
    }
}

} // verus!
