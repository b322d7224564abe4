//! The 8-bit MULTIPLY: multiplies two RGBA buffers channel by channel,
//! normalised back to 0..255. MERGE blends through it.

use vstd::prelude::*;
use std::sync::Arc;
use crate::compositor::{Input, OperationDescriptor, OperationError, Value};
use crate::graphics::{Image, U8Image};
use crate::compositor::metadata::{InputDescriptor, OperationCategory, OperationMetadata, OutputKind, ParameterDescriptor};
use crate::operations::legacy::blend_mode::multiply_channel;
use crate::text::owned;

verus! {

/// Number of bytes of two RGBA buffers that lie in whole pixels of both.
pub open spec fn paired_len(a: Seq<u8>, b: Seq<u8>) -> int {
    let pa = a.len() / 4;
    let pb = b.len() / 4;
    ((if pa <= pb { pa } else { pb }) * 4) as int
}

/// Byte `j` of the product of two RGBA buffers: within the whole pixels
/// both buffers have, the channel product over 255; past them, zero.
pub open spec fn product_byte(a: Seq<u8>, b: Seq<u8>, j: int) -> u8 {
    if j < paired_len(a, b) {
        multiply_channel(a[j] as int, b[j] as int) as u8
    } else {
        0
    }
}

/// The 8-bit MULTIPLY operation.
pub struct Multiply;

impl Multiply {
    pub open spec fn spec_descriptor() -> OperationDescriptor {
        OperationDescriptor {
            id: "multiply",
            menu: "TRANSFORM",
            label: "MULTIPLY",
            action: None,
            ui_action: None,
            create_node: Some("multiply"),
            submenu: None,
        }
    }

    pub fn new() -> (r: Self) {
        Multiply
    }

    /// Multiply two RGBA pixel buffers channel by channel, normalised back
    /// to 0-255. The result is as long as `a`.
    pub fn multiply_pixels(a: &[u8], b: &[u8]) -> (out: Vec<u8>)
        ensures
            out@.len() == a@.len(),
            forall|j: int| 0 <= j < out@.len() ==> #[trigger] out@[j] == product_byte(a@, b@, j),
    {
        let pa = a.len() / 4;
        let pb = b.len() / 4;
        let paired = (if pa <= pb { pa } else { pb }) * 4;
        let mut out: Vec<u8> = Vec::new();
        let mut i: usize = 0;
        while i < a.len()
            invariant
                paired == paired_len(a@, b@),
                paired <= a@.len(),
                paired <= b@.len(),
                i <= a@.len(),
                out@.len() == i,
                forall|j: int| 0 <= j < out@.len() ==> #[trigger] out@[j] == product_byte(a@, b@, j),
            decreases a@.len() - i,
        {
            let v: u8 = if i < paired {
                let x = a[i] as u32;
                let y = b[i] as u32;
                assert(x * y <= 255 * 255) by (nonlinear_arith)
                    requires x <= 255, y <= 255;
                assert((x * y) / 255 <= 255) by (nonlinear_arith)
                    requires x * y <= 255 * 255;
                ((x * y) / 255) as u8
            } else {
                0
            };
            out.push(v);
            i = i + 1;
        }
        out
    }

    /// The menu entry: TRANSFORM / MULTIPLY.
    pub fn descriptor(&self) -> (r: OperationDescriptor)
        ensures
            r == Self::spec_descriptor(),
    {
        OperationDescriptor {
            id: "multiply",
            menu: "TRANSFORM",
            label: "MULTIPLY",
            action: None,
            ui_action: None,
            create_node: Some("multiply"),
            submenu: None,
        }
    }

    /// SOURCE and SOURCE_B, unrestricted; one image output.
    pub fn metadata(&self) -> (r: OperationMetadata)
        ensures
            r.display_name == "Multiply",
            r.category == OperationCategory::Color,
            r.inputs@.len() == 2,
            r.inputs@[0].kind == Input::Source,
            r.inputs@[0].accepts@.len() == 0,
            r.inputs@[1].kind == Input::SourceB,
            r.inputs@[1].accepts@.len() == 0,
            r.outputs@ == seq![OutputKind::Image],
    {
        let mut inputs: Vec<InputDescriptor> = Vec::new();
        inputs.push(InputDescriptor { kind: Input::Source, accepts: &[] });
        inputs.push(InputDescriptor { kind: Input::SourceB, accepts: &[] });
        let mut outputs: Vec<OutputKind> = Vec::new();
        outputs.push(OutputKind::Image);
        OperationMetadata { display_name: "Multiply", category: OperationCategory::Color, inputs, outputs }
    }

    /// No editable parameters.
    pub fn parameters(&self) -> (r: Vec<ParameterDescriptor>)
        ensures
            r@.len() == 0,
    {
        Vec::new()
    }

    /// There is no parameter to read.
    pub fn get_parameter(&self, name: &str) -> (r: Option<Value>)
        ensures
            r is None,
    {
        None
    }

    /// Every parameter name is unknown.
    pub fn set_parameter(&mut self, name: &str, value: Value) -> (r: Result<(), OperationError>)
        ensures
            r matches Err(OperationError::UnknownParameter(n)) && n@ == name@,
    {
        Err(OperationError::UnknownParameter(owned(name)))
    }
}

impl Multiply {
    /// Multiply two images of the same size: the single output is an image
    /// of the first image's size and format holding the product; images of
    /// different sizes are refused.
    pub fn combine(&self, first: &Image, second: &Image) -> (r: Result<Vec<Value>, OperationError>)
        ensures
            (first.width != second.width || first.height != second.height) ==> (r matches Err(
                OperationError::InvalidInputType(m),
            ) && m@ == "Multiply inputs must have matching dimensions"@),
            (first.width == second.width && first.height == second.height) ==> (r matches Ok(values)
                && values@.len() == 1 && (values@[0] matches Value::Image(out) && out.width == first.width
                && out.height == first.height && out.format == first.format && out.pixels@.len()
                == first.pixels@.len() && forall|j: int|
                0 <= j < out.pixels@.len() ==> #[trigger] out.pixels@[j] == product_byte(
                first.pixels@,
                second.pixels@,
                j,
            ))),
    {
        if first.width != second.width || first.height != second.height {
            return Err(OperationError::InvalidInputType(owned("Multiply inputs must have matching dimensions")));
        }
        let pixels = Self::multiply_pixels(first.pixels.as_slice(), second.pixels.as_slice());
        let mut values: Vec<Value> = Vec::new();
        values.push(Value::Image(Arc::new(U8Image { pixels, width: first.width, height: first.height, format: first.format })));
        Ok(values)
    }
}

/// Multiplying by white keeps a buffer, by black clears it.
pub proof fn lemma_multiply_by_white_and_black(a: Seq<u8>, b: Seq<u8>, out: Seq<u8>, j: int)
    requires
        0 <= j < paired_len(a, b),
        out[j] == product_byte(a, b, j),
    ensures
        b[j] == 255 ==> out[j] == a[j],
        b[j] == 0 ==> out[j] == 0,
{
    crate::operations::legacy::blend_mode::lemma_blend_identities(a[j] as int);
}

} // verus!
