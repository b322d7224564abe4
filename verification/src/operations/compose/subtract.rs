//! SUBTRACT: foreground minus background, per channel, unclamped. The
//! pixel arithmetic itself is floating point and runs on the host.

use vstd::prelude::*;
use crate::compositor::{Context, Input, OperationDescriptor, OperationError, Value};
use crate::compositor::bbox::Rect;
use crate::compositor::context::{reported_box, reported_or_full};
use crate::compositor::metadata::{
    InputDescriptor, OperationCategory, OperationMetadata, OutputKind, ParameterDescriptor,
    pixel_kinds, spec_pixel_kinds,
};
use crate::text::owned;

verus! {

/// SUBTRACT: foreground minus background, channel by channel.
pub struct Subtract;

impl Subtract {
    pub open spec fn spec_descriptor() -> OperationDescriptor {
        OperationDescriptor {
            id: "subtract",
            menu: "COMPOSE",
            label: "SUBTRACT",
            action: None,
            ui_action: None,
            create_node: Some("subtract"),
            submenu: None,
        }
    }

    pub fn new() -> (r: Self) {
        Subtract
    }

    /// The menu entry: COMPOSE / SUBTRACT.
    pub fn descriptor(&self) -> (r: OperationDescriptor)
        ensures
            r == Self::spec_descriptor(),
    {
        OperationDescriptor {
            id: "subtract",
            menu: "COMPOSE",
            label: "SUBTRACT",
            action: None,
            ui_action: None,
            create_node: Some("subtract"),
            submenu: None,
        }
    }

    /// FOREGROUND, BACKGROUND, MASK, each taking pixels; one float-image output.
    pub fn metadata(&self) -> (r: OperationMetadata)
        ensures
            crate::operations::shapes::is_metadata_of(r, crate::operations::inventory::OperationKind::Subtract),
            r.display_name == "Subtract",
            r.category == OperationCategory::Color,
            r.inputs@.len() == 3,
            r.inputs@[0].kind == Input::Foreground,
            r.inputs@[0].accepts@ == spec_pixel_kinds(),
            r.inputs@[1].kind == Input::Background,
            r.inputs@[1].accepts@ == spec_pixel_kinds(),
            r.inputs@[2].kind == Input::Mask,
            r.inputs@[2].accepts@ == spec_pixel_kinds(),
            r.outputs@ == seq![OutputKind::FloatImage],
    {
        let mut inputs: Vec<InputDescriptor> = Vec::new();
        inputs.push(InputDescriptor { kind: Input::Foreground, accepts: pixel_kinds() });
        inputs.push(InputDescriptor { kind: Input::Background, accepts: pixel_kinds() });
        inputs.push(InputDescriptor { kind: Input::Mask, accepts: pixel_kinds() });
        let mut outputs: Vec<OutputKind> = Vec::new();
        outputs.push(OutputKind::FloatImage);
        OperationMetadata { display_name: "Subtract", category: OperationCategory::Color, inputs, outputs }
    }

    /// No editable parameters.
    pub fn parameters(&self) -> (r: Vec<ParameterDescriptor>)
        ensures
            r@.len() == 0,
    {
        Vec::new()
    }

    /// There is no parameter to read.
    pub fn get_parameter(&self, name: &str) -> (r: Option<Value>)
        ensures
            r is None,
    {
        None
    }

    /// Every parameter name is unknown.
    pub fn set_parameter(&mut self, name: &str, value: Value) -> (r: Result<(), OperationError>)
        ensures
            r matches Err(OperationError::UnknownParameter(n)) && n@ == name@,
    {
        Err(OperationError::UnknownParameter(owned(name)))
    }
}

/// Where a masked SUBTRACT can differ from its foreground: the union of
/// the boxes FOREGROUND and BACKGROUND reported (either alone can carry
/// real content, since subtracting from zero is not zero), within the box
/// MASK reported; a missing report counts as the whole frame.
pub open spec fn spec_work_area(bboxes: Seq<(Input, Rect)>, width: int, height: int) -> Rect {
    reported_or_full(bboxes, Input::Foreground, width, height).spec_union(
        reported_or_full(bboxes, Input::Background, width, height),
    ).spec_intersect(reported_or_full(bboxes, Input::Mask, width, height))
}

impl Subtract {
    /// The region a masked SUBTRACT computes; see `spec_work_area`.
    pub fn work_area(ctx: &Context, width: u32, height: u32) -> (r: Rect)
        requires
            width <= i32::MAX,
            height <= i32::MAX,
        ensures
            r == spec_work_area(ctx.input_bboxes@, width as int, height as int),
    {
        let foreground_box = reported_box(&ctx.input_bboxes, Input::Foreground, width, height);
        let background_box = reported_box(&ctx.input_bboxes, Input::Background, width, height);
        let natural_box = foreground_box.union(&background_box);
        let mask_box = reported_box(&ctx.input_bboxes, Input::Mask, width, height);
        natural_box.intersect(&mask_box)
    }
}

/// Every pixel either input reported content at, and the mask covers, is
/// computed.
pub proof fn lemma_work_area_covers_both_inputs(bboxes: Seq<(Input, Rect)>, width: int, height: int, x: int, y: int)
    ensures
        (reported_or_full(bboxes, Input::Foreground, width, height).covers(x, y)
            || reported_or_full(bboxes, Input::Background, width, height).covers(x, y))
            && reported_or_full(bboxes, Input::Mask, width, height).covers(x, y)
            ==> spec_work_area(bboxes, width, height).covers(x, y),
        spec_work_area(bboxes, width, height).covers(x, y) ==> reported_or_full(
            bboxes,
            Input::Mask,
            width,
            height,
        ).covers(x, y),
{
}

/// A masked SUBTRACT computed only inside its work area gives the image it
/// would give computed over the whole frame, whatever the channel type the
/// host computes in, whenever the boxes the inputs reported are truthful.
/// Images are given pixel by pixel: `fg`, `bg` and the MASK coverage
/// `alpha` at `(x, y)`. The per-pixel difference `op` sends two zero pixels
/// to zero; the mask blend `blend` keeps the original under no coverage and
/// keeps a pixel blended with itself. Outside the work area the result is
/// FOREGROUND as it was.
pub proof fn lemma_work_area_is_exact<P, A>(
    fg: spec_fn(int, int) -> P,
    bg: spec_fn(int, int) -> P,
    alpha: spec_fn(int, int) -> A,
    op: spec_fn(P, P) -> P,
    blend: spec_fn(P, P, A) -> P,
    zero: P,
    clear: A,
    bboxes: Seq<(Input, Rect)>,
    width: int,
    height: int,
    x: int,
    y: int,
)
    requires
        0 <= x < width,
        0 <= y < height,
        op(zero, zero) == zero,
        forall|o: P, p: P| #[trigger] blend(o, p, clear) == o,
        forall|o: P, a: A| #[trigger] blend(o, o, a) == o,
        !reported_or_full(bboxes, Input::Foreground, width, height).covers(x, y) ==> fg(x, y) == zero,
        !reported_or_full(bboxes, Input::Background, width, height).covers(x, y) ==> bg(x, y) == zero,
        !reported_or_full(bboxes, Input::Mask, width, height).covers(x, y) ==> alpha(x, y) == clear,
    ensures
        (if spec_work_area(bboxes, width, height).covers(x, y) {
            blend(fg(x, y), op(fg(x, y), bg(x, y)), alpha(x, y))
        } else {
            fg(x, y)
        }) == blend(fg(x, y), op(fg(x, y), bg(x, y)), alpha(x, y)),
{
    lemma_work_area_covers_both_inputs(bboxes, width, height, x, y);
    if !spec_work_area(bboxes, width, height).covers(x, y) {
        if !reported_or_full(bboxes, Input::Mask, width, height).covers(x, y) {
            assert(blend(fg(x, y), op(fg(x, y), bg(x, y)), clear) == fg(x, y));
        } else {
            assert(fg(x, y) == zero && bg(x, y) == zero);
            assert(blend(fg(x, y), fg(x, y), alpha(x, y)) == fg(x, y));
        }
    }
}

impl Default for Subtract {
    fn default() -> (r: Self) {
        Self::new()
    }
}

} // verus!
