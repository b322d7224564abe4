//! INVERT: one minus every channel, alpha included. On 8-bit pixels that is
//! `255 - v`, which is exact; the unclamped floating-point form for
//! out-of-gamut images runs on the host.

use vstd::prelude::*;
use crate::compositor::{Context, Input, OperationDescriptor, OperationError, Value};
use crate::compositor::context::{find_input, has_entry, wired};
use crate::graphics::{is_placeholder, rgba_len, U8Image};
use crate::graphics::mask::{apply_mask, image_of, image_value, masked, rgba_of, value_rgba};
use crate::compositor::metadata::{
    InputDescriptor, OperationCategory, OperationMetadata, OutputKind, ParameterDescriptor,
    pixel_kinds, spec_pixel_kinds,
};
use crate::text::owned;

verus! {

/// INVERT: inverts every channel of its source.
pub struct Invert;

impl Invert {
    pub open spec fn spec_descriptor() -> OperationDescriptor {
        OperationDescriptor {
            id: "invert",
            menu: "TRANSFORM",
            label: "INVERT",
            action: None,
            ui_action: None,
            create_node: Some("invert"),
            submenu: Some("SPECTRA"),
        }
    }

    pub fn new() -> (r: Self) {
        Invert
    }

    /// The menu entry: TRANSFORM / INVERT.
    pub fn descriptor(&self) -> (r: OperationDescriptor)
        ensures
            r == Self::spec_descriptor(),
    {
        OperationDescriptor {
            id: "invert",
            menu: "TRANSFORM",
            label: "INVERT",
            action: None,
            ui_action: None,
            create_node: Some("invert"),
            submenu: Some("SPECTRA"),
        }
    }

    /// SOURCE, MASK, each taking pixels; one 8-bit image output.
    pub fn metadata(&self) -> (r: OperationMetadata)
        ensures
            crate::operations::shapes::is_metadata_of(r, crate::operations::inventory::OperationKind::Invert),
            r.display_name == "Invert",
            r.category == OperationCategory::Color,
            r.inputs@.len() == 2,
            r.inputs@[0].kind == Input::Source,
            r.inputs@[0].accepts@ == spec_pixel_kinds(),
            r.inputs@[1].kind == Input::Mask,
            r.inputs@[1].accepts@ == spec_pixel_kinds(),
            r.outputs@ == seq![OutputKind::Image],
    {
        let mut inputs: Vec<InputDescriptor> = Vec::new();
        inputs.push(InputDescriptor { kind: Input::Source, accepts: pixel_kinds() });
        inputs.push(InputDescriptor { kind: Input::Mask, accepts: pixel_kinds() });
        let mut outputs: Vec<OutputKind> = Vec::new();
        outputs.push(OutputKind::Image);
        OperationMetadata { display_name: "Invert", category: OperationCategory::Color, inputs, outputs }
    }

    /// No editable parameters.
    pub fn parameters(&self) -> (r: Vec<ParameterDescriptor>)
        ensures
            r@.len() == 0,
    {
        Vec::new()
    }

    /// There is no parameter to read.
    pub fn get_parameter(&self, name: &str) -> (r: Option<Value>)
        ensures
            r is None,
    {
        None
    }

    /// Every parameter name is unknown.
    pub fn set_parameter(&mut self, name: &str, value: Value) -> (r: Result<(), OperationError>)
        ensures
            r matches Err(OperationError::UnknownParameter(n)) && n@ == name@,
    {
        Err(OperationError::UnknownParameter(owned(name)))
    }
}

/// Every byte of an 8-bit buffer inverted: `255 - v`.
pub open spec fn inverted(pixels: Seq<u8>) -> Seq<u8> {
    Seq::new(pixels.len(), |j: int| (255 - pixels[j]) as u8)
}

/// Inversion works byte by byte on every byte: each output byte and the
/// source byte at the same place add up to 255, and the buffer keeps its
/// length.
pub proof fn lemma_inverted_pointwise(pixels: Seq<u8>)
    ensures
        inverted(pixels).len() == pixels.len(),
        forall|j: int| 0 <= j < pixels.len() ==> #[trigger] inverted(pixels)[j] + pixels[j] == 255,
{
}

/// Inverting twice gives back the buffer.
pub proof fn lemma_invert_twice(pixels: Seq<u8>)
    ensures
        inverted(inverted(pixels)) == pixels,
{
    assert(inverted(inverted(pixels)) =~= pixels);
}

/// Invert every byte of an 8-bit buffer.
fn invert_bytes(pixels: &[u8]) -> (out: Vec<u8>)
    ensures
        out@ == inverted(pixels@),
{
    let mut out: Vec<u8> = Vec::new();
    let mut i: usize = 0;
    while i < pixels.len()
        invariant
            i <= pixels@.len(),
            out@.len() == i,
            forall|j: int| 0 <= j < i ==> #[trigger] out@[j] == (255 - pixels@[j]) as u8,
        decreases pixels@.len() - i,
    {
        out.push(255 - pixels[i]);
        i = i + 1;
    }
    assert(out@ =~= inverted(pixels@));
    out
}

impl Invert {
    /// Run INVERT on 8-bit pixels. With nothing wired into SOURCE the result
    /// is the missing-input placeholder at the graph's resolution. SOURCE
    /// must carry RGBA pixels (an image or a frame); the result is its
    /// inversion, blended back toward SOURCE through MASK's alpha when a
    /// MASK is wired. A MASK that is not pixels, or not SOURCE's size, is
    /// refused.
    pub fn execute(&self, ctx: &Context, inputs: &[(Input, Value)]) -> (r: Result<Vec<Value>, OperationError>)
        requires
            !has_entry(inputs@, Input::Source) ==> rgba_len(ctx.meta.width as int, ctx.meta.height as int) <= u32::MAX,
        ensures
            match wired(inputs@, Input::Source) {
                None => r matches Ok(vals) && vals@.len() == 1
                    && (vals@[0] matches Value::Image(img) && is_placeholder(*img, ctx.meta.width, ctx.meta.height)),
                Some(sv) => match value_rgba(sv) {
                    None => r matches Err(OperationError::WrongValueType),
                    Some((src, w, h)) => match wired(inputs@, Input::Mask) {
                        None => r matches Ok(vals) && vals@.len() == 1 && image_value(vals@[0], inverted(src), w, h),
                        Some(mv) => match value_rgba(mv) {
                            None => r matches Err(OperationError::WrongValueType),
                            Some((m, _, _)) => if m.len() == src.len() && src.len() % 4 == 0 {
                                r matches Ok(vals) && vals@.len() == 1
                                    && image_value(vals@[0], masked(src, inverted(src), m), w, h)
                            } else {
                                r matches Err(OperationError::InvalidInputType(_))
                            },
                        },
                    },
                },
            },
    {
        let source = match find_input(inputs, Input::Source) {
            None => {
                let mut vals: Vec<Value> = Vec::new();
                vals.push(Value::Image(U8Image::missing(ctx.meta.width, ctx.meta.height)));
                return Ok(vals);
            },
            Some(v) => v,
        };
        let (src, width, height) = match rgba_of(source) {
            None => return Err(OperationError::WrongValueType),
            Some(t) => t,
        };
        let mask = match find_input(inputs, Input::Mask) {
            None => None,
            Some(mv) => match rgba_of(mv) {
                None => return Err(OperationError::WrongValueType),
                Some((m, _, _)) => Some(m),
            },
        };
        let inv = invert_bytes(src);
        let ghost inv_view = inv@;
        let out = apply_mask(src, inv, mask)?;
        proof {
            if mask.is_some() {
                assert(out@ =~= masked(src@, inv_view, mask.unwrap()@));
            }
        }
        let mut vals: Vec<Value> = Vec::new();
        vals.push(image_of(out, width, height));
        Ok(vals)
    }
}

impl Default for Invert {
    fn default() -> (r: Self) {
        Self::new()
    }
}

} // verus!
