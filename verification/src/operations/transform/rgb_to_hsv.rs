//! RGB TO HSV: its target colour format parameter, menu entry and shape.
//! The conversion itself is floating point and runs on the host.

use vstd::prelude::*;
use crate::compositor::{OperationDescriptor, OperationError, Value};
use crate::compositor::metadata::{OperationMetadata, ParameterDescriptor, ParameterKind};
use crate::operations::inventory::{descriptor_of, OperationKind};
use crate::operations::shapes::is_metadata_of;
use crate::text::{ascii_upper, is_ascii_text, owned, text_eq, to_upper, uppercase_of};

verus! {

/// The packed colour space RGB TO HSV converts into.
#[derive(Clone, Copy, Debug, PartialEq, Eq, Structural)]
pub enum ColorFormat {
    Hsv,
}

/// The option names of the colour formats, in menu order.
pub open spec fn spec_color_formats() -> Seq<&'static str> {
    seq!["HSV"]
}

/// The option names of the colour formats.
pub fn color_formats() -> (r: &'static [&'static str])
    ensures
        r@ == spec_color_formats(),
{
    let r: &'static [&'static str] = &["HSV"];
    assert(r@ =~= spec_color_formats());
    r
}

/// The option name of each value.
pub open spec fn color_format_name(v: ColorFormat) -> &'static str {
    match v {
        ColorFormat::Hsv => "HSV",
    }
}

/// The value an upper-cased name stands for.
pub open spec fn color_format_named(u: Seq<char>) -> Option<ColorFormat> {
    if u == "HSV"@ {
        Some(ColorFormat::Hsv)
    } else {
        None
    }
}

impl Default for ColorFormat {
    fn default() -> (r: Self)
        ensures
            r == ColorFormat::Hsv,
    {
        ColorFormat::Hsv
    }
}

impl ColorFormat {
    /// The option name of this value.
    pub fn to_str(&self) -> (r: &'static str)
        ensures
            r == color_format_name(*self),
    {
        match self {
            ColorFormat::Hsv => "HSV",
        }
    }

    /// Parse an option name, ignoring case.
    pub fn from_str(s: &str) -> (r: Option<Self>)
        ensures
            r == color_format_named(uppercase_of(s@)),
            is_ascii_text(s@) ==> r == color_format_named(ascii_upper(s@)),
    {
        let upper = to_upper(s);
        if text_eq(upper.as_str(), "HSV") {
            Some(ColorFormat::Hsv)
        } else {
            None
        }
    }
}

/// Every value's own name, upper-cased, parses back to it.
pub proof fn lemma_color_format_round_trip(v: ColorFormat)
    ensures
        is_ascii_text(color_format_name(v)@),
        color_format_named(ascii_upper(color_format_name(v)@)) == Some(v),
{
    reveal_strlit("HSV");
    assert(ascii_upper("HSV"@) =~= "HSV"@);
}

/// RGB TO HSV: converts its source into a packed colour space. The host
/// keeps the conversion's own state; this holds the format it converts to.
#[derive(Clone, Copy, Debug, PartialEq, Eq, Structural)]
pub struct RgbToHsv {
    pub format: ColorFormat,
}

impl RgbToHsv {
    /// A conversion into HSV.
    pub fn new() -> (r: Self)
        ensures
            r.format == ColorFormat::Hsv,
    {
        RgbToHsv { format: ColorFormat::default() }
    }

    /// The menu entry: TRANSFORM / SPECTRA / RGB TO HSV.
    pub fn descriptor(&self) -> (r: OperationDescriptor)
        ensures
            r == descriptor_of(OperationKind::RgbToHsv),
    {
        OperationKind::RgbToHsv.descriptor()
    }

    /// SOURCE, taking pixels; one float-image output; no MASK.
    pub fn metadata(&self) -> (r: OperationMetadata)
        ensures
            is_metadata_of(r, OperationKind::RgbToHsv),
    {
        OperationKind::RgbToHsv.metadata()
    }

    /// One parameter, FORMAT, picked from the colour format names.
    pub fn parameters(&self) -> (r: Vec<ParameterDescriptor>)
        ensures
            r@.len() == 1,
            r@[0].name == "FORMAT",
            r@[0].group is None,
            r@[0].kind matches ParameterKind::Enum(options) && options@ == spec_color_formats(),
    {
        let mut r: Vec<ParameterDescriptor> = Vec::new();
        r.push(ParameterDescriptor { name: "FORMAT", kind: ParameterKind::Enum(color_formats()), group: None });
        r
    }

    /// FORMAT reads as its option name; nothing else is a parameter.
    pub fn get_parameter(&self, name: &str) -> (r: Option<Value>)
        ensures
            name@ == "FORMAT"@ ==> (r matches Some(Value::Text(t)) && t@ == color_format_name(self.format)@),
            name@ != "FORMAT"@ ==> r is None,
    {
        if text_eq(name, "FORMAT") {
            Some(Value::Text(owned(self.format.to_str())))
        } else {
            None
        }
    }

    /// Set FORMAT from a text value holding a format name; an unknown
    /// format name is an invalid value. Any other name, or a value that is
    /// not text, is the wrong type. A refused request leaves the format as
    /// it was.
    pub fn set_parameter(&mut self, name: &str, value: Value) -> (r: Result<(), OperationError>)
        ensures
            match value {
                Value::Text(s) if name@ == "FORMAT"@ => match color_format_named(uppercase_of(s@)) {
                    Some(f) => r is Ok && final(self).format == f,
                    None => *final(self) == *old(self) && (r matches Err(OperationError::InvalidParameterValue(n, v))
                        && n@ == name@ && v@ == s@),
                },
                _ => *final(self) == *old(self) && (r matches Err(OperationError::InvalidParameterType(n))
                    && n@ == name@),
            },
    {
        let is_format = text_eq(name, "FORMAT");
        match value {
            Value::Text(s) if is_format => match ColorFormat::from_str(s.as_str()) {
                Some(f) => {
                    self.format = f;
                    Ok(())
                },
                None => Err(OperationError::InvalidParameterValue(owned(name), s)),
            },
            _ => Err(OperationError::InvalidParameterType(owned(name))),
        }
    }
}

impl Default for RgbToHsv {
    fn default() -> (r: Self)
        ensures
            r.format == ColorFormat::Hsv,
    {
        RgbToHsv::new()
    }
}

} // verus!
