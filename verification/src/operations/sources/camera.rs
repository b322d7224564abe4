//! CAMERA: the current frame of a live camera stream the host attached.

use vstd::prelude::*;
use std::sync::Arc;
use crate::compositor::{Context, Input, OperationDescriptor, OperationError, Value};
use crate::compositor::metadata::{OperationCategory, OperationMetadata, OutputKind};
use crate::graphics::{share, Frame};
use crate::operations::sources::PixelSource;
use crate::text::owned;

verus! {

/// Live camera source: the host owns the capture device and hands the
/// running stream over as a `PixelSource` (`S` is usually
/// `dyn PixelSource`).
pub struct CameraSource<S: PixelSource + ?Sized> {
    pub pixel_source: Option<Arc<S>>,
}

impl<S: PixelSource + ?Sized> CameraSource<S> {
    pub open spec fn spec_descriptor() -> OperationDescriptor {
        OperationDescriptor {
            id: "camera_source",
            menu: "INPUT",
            label: "CAMERA",
            action: None,
            ui_action: Some("open_camera_stream"),
            create_node: None,
            submenu: None,
        }
    }

    /// A camera with no stream attached yet.
    pub fn new() -> (r: Self)
        ensures
            r.pixel_source is None,
    {
        Self { pixel_source: None }
    }

    /// Attach a stream.
    pub fn set_source(&mut self, source: Arc<S>)
        ensures
            final(self).pixel_source == Some(source),
    {
        self.pixel_source = Some(source);
    }

    /// The attached stream, if any.
    pub fn get_source(&self) -> (r: Option<Arc<S>>)
        ensures
            r == self.pixel_source,
    {
        match &self.pixel_source {
            Some(s) => Some(share(s)),
            None => None,
        }
    }

    /// The menu entry: INPUT / CAMERA, opened through the host's camera
    /// picker.
    pub fn descriptor(&self) -> (r: OperationDescriptor)
        ensures
            r == Self::spec_descriptor(),
    {
        OperationDescriptor {
            id: "camera_source",
            menu: "INPUT",
            label: "CAMERA",
            action: None,
            ui_action: Some("open_camera_stream"),
            create_node: None,
            submenu: None,
        }
    }

    /// No inputs, one frame output, in the Source category.
    pub fn metadata(&self) -> (r: OperationMetadata)
        ensures
            crate::operations::shapes::is_metadata_of(r, crate::operations::inventory::OperationKind::CameraSource),
            r.display_name == "Camera Source",
            r.category == OperationCategory::Source,
            r.inputs@.len() == 0,
            r.outputs@ == seq![OutputKind::Frame],
    {
        let mut outputs: Vec<OutputKind> = Vec::new();
        outputs.push(OutputKind::Frame);
        OperationMetadata {
            display_name: "Camera Source",
            category: OperationCategory::Source,
            inputs: Vec::new(),
            outputs,
        }
    }

    /// Attaching a stream always succeeds.
    pub fn set_pixel_source(&mut self, source: Arc<S>) -> (r: Result<(), OperationError>)
        ensures
            r is Ok,
            final(self).pixel_source == Some(source),
    {
        self.set_source(source);
        Ok(())
    }

    /// A camera produces a new frame every tick, so its output is never
    /// reused from an earlier one.
    pub fn is_live(&self) -> (r: bool)
        ensures
            r,
    {
        true
    }

    /// The stream's current frame at the graph's render size. Without a
    /// stream this is a missing source; a failed read is passed on
    /// unchanged; a frame read is the single output.
    pub fn execute(&self, ctx: &Context, inputs: &[(Input, Value)]) -> (r: Result<Vec<Value>, OperationError>)
        ensures
            self.pixel_source is None ==> (r matches Err(OperationError::SourceNotFound(m))
                && m@ == "Camera stream not attached"@),
            self.pixel_source matches Some(s) ==> match r {
                Ok(values) => values@.len() == 1 && exists|f: Frame|
                    s.gives(ctx.meta.width, ctx.meta.height, Ok(f)) && (values@[0] matches Value::Frame(g) && *g == f),
                Err(e) => s.gives(ctx.meta.width, ctx.meta.height, Err(e)),
            },
    {
        let source = match &self.pixel_source {
            Some(s) => s,
            None => {
                return Err(OperationError::SourceNotFound(owned("Camera stream not attached")));
            },
        };
        let frame = source.read(ctx.meta.width, ctx.meta.height)?;
        let mut values: Vec<Value> = Vec::new();
        values.push(Value::Frame(Arc::new(frame)));
        Ok(values)
    }
}

} // verus!
