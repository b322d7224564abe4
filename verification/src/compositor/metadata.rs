//! What an operation declares about itself: its menu entry, its inputs and
//! outputs, and its editable parameters.

use vstd::prelude::*;
use crate::compositor::input::Input;

verus! {

/// The menu family an operation belongs to.
#[derive(Clone, Copy, Debug, PartialEq, Eq, Structural)]
pub enum OperationCategory {
    Source,
    Color,
    Generator,
    Output,
    Composite,
    Mask,
    Animation,
}

/// The kind of value an operation output carries.
#[derive(Clone, Copy, Debug, PartialEq, Eq, Structural)]
pub enum OutputKind {
    Frame,
    Image,
    FloatImage,
    Number,
    Boolean,
}

/// The output kinds that carry pixels, in the order they are offered.
pub open spec fn spec_pixel_kinds() -> Seq<OutputKind> {
    seq![OutputKind::Image, OutputKind::FloatImage, OutputKind::Frame]
}

/// The output kinds that carry pixels.
pub fn pixel_kinds() -> (r: &'static [OutputKind])
    ensures
        r@ == spec_pixel_kinds(),
{
    let r: &'static [OutputKind] = &[OutputKind::Image, OutputKind::FloatImage, OutputKind::Frame];
    assert(r@ =~= spec_pixel_kinds());
    r
}

/// One declared input: its slot and the output kinds that may be wired
/// into it (none listed means any).
#[derive(Clone, Copy, Debug)]
pub struct InputDescriptor {
    pub kind: Input,
    pub accepts: &'static [OutputKind],
}

/// What an operation declares about its shape.
#[derive(Debug)]
pub struct OperationMetadata {
    pub display_name: &'static str,
    pub category: OperationCategory,
    pub inputs: Vec<InputDescriptor>,
    pub outputs: Vec<OutputKind>,
}

/// How a parameter is edited: picked from a fixed list of names, as a
/// colour, or as an on/off switch.
#[derive(Clone, Copy, Debug)]
pub enum ParameterKind {
    Enum(&'static [&'static str]),
    Color,
    Boolean,
}

/// One editable parameter of an operation.
#[derive(Clone, Copy, Debug)]
pub struct ParameterDescriptor {
    pub name: &'static str,
    pub kind: ParameterKind,
    pub group: Option<&'static str>,
}

/// An operation's menu entry.
#[derive(Clone, Copy, Debug, PartialEq, Eq)]
pub struct OperationDescriptor {
    pub id: &'static str,
    pub menu: &'static str,
    pub label: &'static str,
    pub action: Option<&'static str>,
    pub ui_action: Option<&'static str>,
    pub create_node: Option<&'static str>,
    pub submenu: Option<&'static str>,
}

} // verus!
