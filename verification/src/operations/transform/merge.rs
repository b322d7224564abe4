//! MERGE: combines a foreground and a background under a chosen blend
//! mode. Multiply is the one mode there is.

use vstd::prelude::*;
use std::sync::Arc;
use crate::compositor::{Input, OperationDescriptor, OperationError, Value};
use crate::graphics::{Image, U8Image};
use crate::compositor::metadata::{
    InputDescriptor, OperationCategory, OperationMetadata, OutputKind, ParameterDescriptor, ParameterKind,
};
use crate::operations::transform::multiply::{Multiply, product_byte};
use crate::text::{ascii_upper, is_ascii_text, owned, text_eq, to_upper, uppercase_of};

verus! {

/// The blend modes MERGE offers.
#[derive(Clone, Copy, Debug, PartialEq, Eq, Structural)]
pub enum BlendMode {
    Multiply,
}

/// The option names of the blend modes, in menu order.
pub open spec fn spec_blend_modes() -> Seq<&'static str> {
    seq!["MULTIPLY"]
}

/// The option names of the blend modes.
pub fn blend_modes() -> (r: &'static [&'static str])
    ensures
        r@ == spec_blend_modes(),
{
    let r: &'static [&'static str] = &["MULTIPLY"];
    assert(r@ =~= spec_blend_modes());
    r
}

/// The blend mode an upper-cased name stands for.
pub open spec fn blend_mode_named(u: Seq<char>) -> Option<BlendMode> {
    if u == "MULTIPLY"@ {
        Some(BlendMode::Multiply)
    } else {
        None
    }
}

/// The option name of each blend mode.
pub open spec fn blend_mode_name(m: BlendMode) -> &'static str {
    match m {
        BlendMode::Multiply => "MULTIPLY",
    }
}

impl Default for BlendMode {
    fn default() -> (r: Self)
        ensures
            r == BlendMode::Multiply,
    {
        BlendMode::Multiply
    }
}

impl BlendMode {
    /// The option name of this blend mode.
    pub fn to_str(&self) -> (r: &'static str)
        ensures
            r == blend_mode_name(*self),
    {
        match self {
            BlendMode::Multiply => "MULTIPLY",
        }
    }

    /// Parse a blend mode name, ignoring case.
    pub fn from_str(value: &str) -> (r: Option<Self>)
        ensures
            r == blend_mode_named(uppercase_of(value@)),
            is_ascii_text(value@) ==> r == blend_mode_named(ascii_upper(value@)),
    {
        let upper = to_upper(value);
        if text_eq(upper.as_str(), "MULTIPLY") {
            Some(BlendMode::Multiply)
        } else {
            None
        }
    }
}

/// Every blend mode's own name, upper-cased, parses back to it.
pub proof fn lemma_blend_mode_round_trip(m: BlendMode)
    ensures
        is_ascii_text(blend_mode_name(m)@),
        blend_mode_named(ascii_upper(blend_mode_name(m)@)) == Some(m),
{
    reveal_strlit("MULTIPLY");
    assert(ascii_upper("MULTIPLY"@) =~= "MULTIPLY"@);
}

/// MERGE: blends a foreground over a background.
#[derive(Clone, Copy, Debug, PartialEq, Eq, Structural)]
pub struct Merge {
    pub blend_mode: BlendMode,
}

impl Merge {
    pub open spec fn spec_descriptor() -> OperationDescriptor {
        OperationDescriptor {
            id: "merge",
            menu: "TRANSFORM",
            label: "MERGE",
            action: None,
            ui_action: None,
            create_node: Some("merge"),
            submenu: None,
        }
    }

    /// A merge that multiplies.
    pub fn new() -> (r: Self)
        ensures
            r.blend_mode == BlendMode::Multiply,
    {
        Merge { blend_mode: BlendMode::Multiply }
    }

    /// Blend two RGBA buffers under `mode`; the result is as long as the
    /// foreground.
    pub fn blend_pixels(mode: BlendMode, foreground: &[u8], background: &[u8]) -> (out: Vec<u8>)
        ensures
            out@.len() == foreground@.len(),
            mode == BlendMode::Multiply ==> forall|j: int|
                0 <= j < out@.len() ==> #[trigger] out@[j] == product_byte(foreground@, background@, j),
    {
        match mode {
            BlendMode::Multiply => Multiply::multiply_pixels(foreground, background),
        }
    }

    /// The menu entry: TRANSFORM / MERGE.
    pub fn descriptor(&self) -> (r: OperationDescriptor)
        ensures
            r == Self::spec_descriptor(),
    {
        OperationDescriptor {
            id: "merge",
            menu: "TRANSFORM",
            label: "MERGE",
            action: None,
            ui_action: None,
            create_node: Some("merge"),
            submenu: None,
        }
    }

    /// FOREGROUND and BACKGROUND, unrestricted; one image output.
    pub fn metadata(&self) -> (r: OperationMetadata)
        ensures
            r.display_name == "Merge",
            r.category == OperationCategory::Color,
            r.inputs@.len() == 2,
            r.inputs@[0].kind == Input::Foreground,
            r.inputs@[0].accepts@.len() == 0,
            r.inputs@[1].kind == Input::Background,
            r.inputs@[1].accepts@.len() == 0,
            r.outputs@ == seq![OutputKind::Image],
    {
        let mut inputs: Vec<InputDescriptor> = Vec::new();
        inputs.push(InputDescriptor { kind: Input::Foreground, accepts: &[] });
        inputs.push(InputDescriptor { kind: Input::Background, accepts: &[] });
        let mut outputs: Vec<OutputKind> = Vec::new();
        outputs.push(OutputKind::Image);
        OperationMetadata { display_name: "Merge", category: OperationCategory::Color, inputs, outputs }
    }

    /// One parameter, `blend_mode`, picked from the blend mode names.
    pub fn parameters(&self) -> (r: Vec<ParameterDescriptor>)
        ensures
            r@.len() == 1,
            r@[0].name == "blend_mode",
            r@[0].group is None,
            r@[0].kind matches ParameterKind::Enum(options) && options@ == spec_blend_modes(),
    {
        let mut r: Vec<ParameterDescriptor> = Vec::new();
        r.push(ParameterDescriptor { name: "blend_mode", kind: ParameterKind::Enum(blend_modes()), group: None });
        r
    }

    /// `blend_mode` reads as its option name; nothing else is a parameter.
    pub fn get_parameter(&self, name: &str) -> (r: Option<Value>)
        ensures
            name@ == "blend_mode"@ ==> (r matches Some(Value::Text(t)) && t@ == blend_mode_name(self.blend_mode)@),
            name@ != "blend_mode"@ ==> r is None,
    {
        if text_eq(name, "blend_mode") {
            Some(Value::Text(owned(self.blend_mode.to_str())))
        } else {
            None
        }
    }

    /// Set `blend_mode` from a text value holding a mode name. Any other
    /// name is unknown; a non-text value for `blend_mode` is the wrong
    /// type; an unknown mode name is an invalid value. A refused request
    /// leaves the mode as it was.
    pub fn set_parameter(&mut self, name: &str, value: Value) -> (r: Result<(), OperationError>)
        ensures
            name@ != "blend_mode"@ ==> *final(self) == *old(self) && (r matches Err(
                OperationError::UnknownParameter(n),
            ) && n@ == name@),
            name@ == "blend_mode"@ ==> match value {
                Value::Text(s) => match blend_mode_named(uppercase_of(s@)) {
                    Some(m) => r is Ok && final(self).blend_mode == m,
                    None => *final(self) == *old(self) && (r matches Err(OperationError::InvalidParameterValue(n, v))
                        && n@ == name@ && v@ == s@),
                },
                _ => *final(self) == *old(self) && (r matches Err(OperationError::InvalidParameterType(n))
                    && n@ == name@),
            },
    {
        if !text_eq(name, "blend_mode") {
            return Err(OperationError::UnknownParameter(owned(name)));
        }
        match value {
            Value::Text(s) => match BlendMode::from_str(s.as_str()) {
                Some(m) => {
                    self.blend_mode = m;
                    Ok(())
                },
                None => Err(OperationError::InvalidParameterValue(owned(name), s)),
            },
            _ => Err(OperationError::InvalidParameterType(owned(name))),
        }
    }
}

impl Merge {
    /// Blend a foreground image over a background image of the same size:
    /// the single output is an image of the foreground's size and format
    /// holding the blend; images of different sizes are refused.
    pub fn combine(&self, foreground: &Image, background: &Image) -> (r: Result<Vec<Value>, OperationError>)
        ensures
            (foreground.width != background.width || foreground.height != background.height) ==> (r matches Err(
                OperationError::InvalidInputType(m),
            ) && m@ == "Merge inputs must have matching dimensions"@),
            (foreground.width == background.width && foreground.height == background.height) ==> (r matches Ok(
                values,
            ) && values@.len() == 1 && (values@[0] matches Value::Image(out) && out.width == foreground.width
                && out.height == foreground.height && out.format == foreground.format && out.pixels@.len()
                == foreground.pixels@.len() && (self.blend_mode == BlendMode::Multiply ==> forall|j: int|
                0 <= j < out.pixels@.len() ==> #[trigger] out.pixels@[j] == product_byte(
                foreground.pixels@,
                background.pixels@,
                j,
            )))),
    {
        if foreground.width != background.width || foreground.height != background.height {
            return Err(OperationError::InvalidInputType(owned("Merge inputs must have matching dimensions")));
        }
        let pixels = Self::blend_pixels(self.blend_mode, foreground.pixels.as_slice(), background.pixels.as_slice());
        let mut values: Vec<Value> = Vec::new();
        values.push(Value::Image(Arc::new(U8Image {
            pixels,
            width: foreground.width,
            height: foreground.height,
            format: foreground.format,
        })));
        Ok(values)
    }
}

impl Default for Merge {
    fn default() -> (r: Self)
        ensures
            r.blend_mode == BlendMode::Multiply,
    {
        Merge::new()
    }
}

} // verus!
