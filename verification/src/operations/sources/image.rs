//! LOAD IMAGE: a loaded still image, contain-fitted to the graph's render
//! size. The fitted image is kept with the size it was fitted for, so
//! a render size that has not changed since the last run hands out the very
//! same image again.

use vstd::prelude::*;
use std::sync::Arc;
use crate::compositor::{Context, Input, OperationDescriptor, OperationError, Value};
use crate::compositor::metadata::{OperationCategory, OperationMetadata, OutputKind};
use crate::graphics::{fit_pixels, rgba_len, share, ImageFormat, U8Image};
use crate::text::owned;

verus! {

/// Whether `fitted` is `image` contain-fitted to `width` by `height`.
pub open spec fn is_fit_of(fitted: U8Image, image: U8Image, width: u32, height: u32) -> bool {
    &&& fitted.width == width
    &&& fitted.height == height
    &&& fitted.format == ImageFormat::Rgba8
    &&& fitted.pixels@ == fit_pixels(image.pixels@, image.width as int, image.height as int, width as int, height as int)
}

/// LOAD IMAGE: a still image loaded by the host.
pub struct ImageSource {
    image: Option<Arc<U8Image>>,
    fitted: Option<(u32, u32, Arc<U8Image>)>,
}

impl ImageSource {
    /// A kept fit always belongs to the image currently loaded.
    #[verifier::type_invariant]
    closed spec fn fit_matches_image(self) -> bool {
        match self.fitted {
            Some((w, h, f)) => match self.image {
                Some(i) => is_fit_of(*f, *i, w, h),
                None => false,
            },
            None => true,
        }
    }

    /// The image loaded, if any.
    pub closed spec fn loaded(&self) -> Option<Arc<U8Image>> {
        self.image
    }

    pub open spec fn spec_descriptor() -> OperationDescriptor {
        OperationDescriptor {
            id: "image_source",
            menu: "INPUT",
            label: "LOAD IMAGE",
            action: None,
            ui_action: Some("open_image_picker"),
            create_node: None,
            submenu: None,
        }
    }

    /// A source with no image loaded.
    pub fn new() -> (r: Self)
        ensures
            r.loaded() is None,
    {
        Self { image: None, fitted: None }
    }

    /// Load `image`, dropping any fit of the previous one.
    pub fn set_image(&mut self, image: Arc<U8Image>)
        ensures
            final(self).loaded() == Some(image),
    {
        self.fitted = None;
        self.image = Some(image);
    }

    /// The image loaded, if any.
    pub fn get_image(&self) -> (r: Option<Arc<U8Image>>)
        ensures
            r == self.loaded(),
    {
        match &self.image {
            Some(i) => Some(share(i)),
            None => None,
        }
    }

    /// The menu entry: INPUT / LOAD IMAGE, opened through the host's file
    /// picker.
    pub fn descriptor(&self) -> (r: OperationDescriptor)
        ensures
            r == Self::spec_descriptor(),
    {
        OperationDescriptor {
            id: "image_source",
            menu: "INPUT",
            label: "LOAD IMAGE",
            action: None,
            ui_action: Some("open_image_picker"),
            create_node: None,
            submenu: None,
        }
    }

    /// No inputs, one image output, in the Source category.
    pub fn metadata(&self) -> (r: OperationMetadata)
        ensures
            crate::operations::shapes::is_metadata_of(r, crate::operations::inventory::OperationKind::ImageSource),
            r.display_name == "Image Source",
            r.category == OperationCategory::Source,
            r.inputs@.len() == 0,
            r.outputs@ == seq![OutputKind::Image],
    {
        let mut outputs: Vec<OutputKind> = Vec::new();
        outputs.push(OutputKind::Image);
        OperationMetadata {
            display_name: "Image Source",
            category: OperationCategory::Source,
            inputs: Vec::new(),
            outputs,
        }
    }

    /// The loaded image contain-fitted to the graph's render size, as the
    /// single output; without an image this is a missing source. Whether
    /// the fit was computed now or kept from an earlier run at the same
    /// size, it is the fit of the image loaded now; the image loaded stays
    /// as it was.
    pub fn execute(&mut self, ctx: &Context, inputs: &[(Input, Value)]) -> (r: Result<Vec<Value>, OperationError>)
        requires
            old(self).loaded() matches Some(i) ==> i.wf(),
            rgba_len(ctx.meta.width as int, ctx.meta.height as int) <= u32::MAX,
        ensures
            final(self).loaded() == old(self).loaded(),
            old(self).loaded() is None ==> (r matches Err(OperationError::SourceNotFound(m))
                && m@ == "Image not loaded"@),
            old(self).loaded() matches Some(i) ==> (r matches Ok(values) && values@.len() == 1
                && (values@[0] matches Value::Image(out) && is_fit_of(*out, *i, ctx.meta.width, ctx.meta.height))),
    {
        proof {
            use_type_invariant(&*self);
        }
        let width = ctx.meta.width;
        let height = ctx.meta.height;
        let image = match &self.image {
            Some(i) => share(i),
            None => {
                return Err(OperationError::SourceNotFound(owned("Image not loaded")));
            },
        };
        if let Some((cached_width, cached_height, fitted)) = &self.fitted {
            if *cached_width == width && *cached_height == height {
                let mut values: Vec<Value> = Vec::new();
                values.push(Value::Image(share(fitted)));
                return Ok(values);
            }
        }
        let fitted = Arc::new(image.contain_fit(width, height));
        self.fitted = Some((width, height, share(&fitted)));
        let mut values: Vec<Value> = Vec::new();
        values.push(Value::Image(fitted));
        Ok(values)
    }
}

} // verus!
