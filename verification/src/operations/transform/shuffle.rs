//! SHUFFLE: rebuilds each pixel's four channels from a chosen source
//! channel each, or zero.

use vstd::prelude::*;
use crate::compositor::{Context, Input, OperationDescriptor, OperationError, Value};
use crate::compositor::bbox::Rect;
use crate::compositor::context::{find_input, has_entry, reported_box, reported_or_full, wired};
use crate::graphics::{in_work_area, is_placeholder, pixel_of, rgba_len, compute_within_bbox, U8Image};
use crate::graphics::{lemma_byte_decompose, lemma_byte_in_bounds};
use crate::graphics::mask::{apply_mask, blend_pixel, image_value, image_of, masked_byte, rgba_of, value_rgba, lemma_mask_blend};
use crate::compositor::metadata::{
    InputDescriptor, OperationCategory, OperationMetadata, OutputKind, ParameterDescriptor,
    ParameterKind, pixel_kinds, spec_pixel_kinds,
};
use crate::text::{ascii_upper, is_ascii_text, owned, text_eq, to_upper, uppercase_of};

verus! {

/// Which source channel feeds an output channel; `Off` writes zero.
#[derive(Clone, Copy, Debug, PartialEq, Eq, Structural)]
pub enum ShuffleChannel {
    R,
    G,
    B,
    A,
    Off,
}

/// The option names a channel selector offers, in menu order.
pub open spec fn spec_shuffle_channels() -> Seq<&'static str> {
    seq!["RED", "GREEN", "BLUE", "ALPHA", "OFF"]
}

/// The complete set of values a channel selector may take.
pub fn shuffle_channels() -> (r: &'static [&'static str])
    ensures
        r@ == spec_shuffle_channels(),
{
    let r: &'static [&'static str] = &["RED", "GREEN", "BLUE", "ALPHA", "OFF"];
    assert(r@ =~= spec_shuffle_channels());
    r
}

/// The option name of each selector value.
pub open spec fn channel_name(c: ShuffleChannel) -> &'static str {
    match c {
        ShuffleChannel::R => "RED",
        ShuffleChannel::G => "GREEN",
        ShuffleChannel::B => "BLUE",
        ShuffleChannel::A => "ALPHA",
        ShuffleChannel::Off => "OFF",
    }
}

/// Each selector parameter reads its own channel's field: RED the red
/// selector, GREEN the green one, BLUE the blue one, ALPHA the alpha one,
/// and no other name is a parameter. Setting a selector by name and then
/// reading that name gives back the value set, and leaves the other three
/// selectors as they were.
pub proof fn lemma_selector_parameters(s: Shuffle, name: Seq<char>, c: ShuffleChannel)
    ensures
        name == seq!['R', 'E', 'D'] ==> s.selector_named(name) == Some(s.red)
            && s.with_selector(name, c) == (Shuffle { red: c, ..s }),
        name == seq!['G', 'R', 'E', 'E', 'N'] ==> s.selector_named(name) == Some(s.green)
            && s.with_selector(name, c) == (Shuffle { green: c, ..s }),
        name == seq!['B', 'L', 'U', 'E'] ==> s.selector_named(name) == Some(s.blue)
            && s.with_selector(name, c) == (Shuffle { blue: c, ..s }),
        name == seq!['A', 'L', 'P', 'H', 'A'] ==> s.selector_named(name) == Some(s.alpha)
            && s.with_selector(name, c) == (Shuffle { alpha: c, ..s }),
        name != seq!['R', 'E', 'D'] && name != seq!['G', 'R', 'E', 'E', 'N'] && name != seq!['B', 'L', 'U', 'E']
            && name != seq!['A', 'L', 'P', 'H', 'A'] ==> s.selector_named(name) is None,
        s.selector_named(name) is Some ==> s.with_selector(name, c).selector_named(name) == Some(c),
{
    reveal_strlit("RED");
    reveal_strlit("GREEN");
    reveal_strlit("BLUE");
    reveal_strlit("ALPHA");
    assert("RED"@ =~= seq!['R', 'E', 'D']);
    assert("GREEN"@ =~= seq!['G', 'R', 'E', 'E', 'N']);
    assert("BLUE"@ =~= seq!['B', 'L', 'U', 'E']);
    assert("ALPHA"@ =~= seq!['A', 'L', 'P', 'H', 'A']);
}

/// The selector value an upper-cased name stands for: the full names and
/// the single letters R, G, B, A.
pub open spec fn channel_named(u: Seq<char>) -> Option<ShuffleChannel> {
    if u == "RED"@ || u == "R"@ {
        Some(ShuffleChannel::R)
    } else if u == "GREEN"@ || u == "G"@ {
        Some(ShuffleChannel::G)
    } else if u == "BLUE"@ || u == "B"@ {
        Some(ShuffleChannel::B)
    } else if u == "ALPHA"@ || u == "A"@ {
        Some(ShuffleChannel::A)
    } else if u == "OFF"@ {
        Some(ShuffleChannel::Off)
    } else {
        None
    }
}

impl Default for ShuffleChannel {
    fn default() -> (r: Self)
        ensures
            r == ShuffleChannel::R,
    {
        ShuffleChannel::R
    }
}

impl ShuffleChannel {
    /// The option name of this selector value.
    pub fn to_str(&self) -> (r: &'static str)
        ensures
            r == channel_name(*self),
    {
        match self {
            ShuffleChannel::R => "RED",
            ShuffleChannel::G => "GREEN",
            ShuffleChannel::B => "BLUE",
            ShuffleChannel::A => "ALPHA",
            ShuffleChannel::Off => "OFF",
        }
    }

    /// Parse a selector name, ignoring case.
    pub fn from_str(s: &str) -> (r: Option<Self>)
        ensures
            r == channel_named(uppercase_of(s@)),
            is_ascii_text(s@) ==> r == channel_named(ascii_upper(s@)),
    {
        let upper = to_upper(s);
        let u = upper.as_str();
        if text_eq(u, "RED") || text_eq(u, "R") {
            Some(ShuffleChannel::R)
        } else if text_eq(u, "GREEN") || text_eq(u, "G") {
            Some(ShuffleChannel::G)
        } else if text_eq(u, "BLUE") || text_eq(u, "B") {
            Some(ShuffleChannel::B)
        } else if text_eq(u, "ALPHA") || text_eq(u, "A") {
            Some(ShuffleChannel::A)
        } else if text_eq(u, "OFF") {
            Some(ShuffleChannel::Off)
        } else {
            None
        }
    }
}

/// Every selector's own name, upper-cased, parses back to it.
pub proof fn lemma_channel_name_round_trip(c: ShuffleChannel)
    ensures
        is_ascii_text(channel_name(c)@),
        channel_named(ascii_upper(channel_name(c)@)) == Some(c),
{
    reveal_strlit("RED");
    reveal_strlit("R");
    reveal_strlit("GREEN");
    reveal_strlit("G");
    reveal_strlit("BLUE");
    reveal_strlit("B");
    reveal_strlit("ALPHA");
    reveal_strlit("A");
    reveal_strlit("OFF");
    let n = channel_name(c)@;
    assert(ascii_upper(n) =~= n);
    assert("RED"@.len() == 3 && "R"@.len() == 1 && "GREEN"@.len() == 5 && "G"@.len() == 1);
    assert("BLUE"@.len() == 4 && "B"@.len() == 1 && "ALPHA"@.len() == 5 && "A"@.len() == 1);
    assert("OFF"@.len() == 3);
    assert("R"@[0] != "G"@[0] && "R"@[0] != "B"@[0] && "R"@[0] != "A"@[0]);
    assert("G"@[0] != "B"@[0] && "G"@[0] != "A"@[0] && "B"@[0] != "A"@[0]);
    assert("GREEN"@[0] != "ALPHA"@[0] && "OFF"@[0] != "RED"@[0]);
}

/// SHUFFLE: remaps the RGBA channels of its source.
#[derive(Clone, Copy, Debug, PartialEq, Eq, Structural)]
pub struct Shuffle {
    pub red: ShuffleChannel,
    pub green: ShuffleChannel,
    pub blue: ShuffleChannel,
    pub alpha: ShuffleChannel,
}

/// Offset of a selector's source channel within a pixel; `Off` has none.
pub open spec fn channel_offset(c: ShuffleChannel) -> int {
    match c {
        ShuffleChannel::R => 0,
        ShuffleChannel::G => 1,
        ShuffleChannel::B => 2,
        ShuffleChannel::A => 3,
        ShuffleChannel::Off => -1,
    }
}

/// Whether `v` is a value `T::default()` can return.
pub open spec fn is_default<T: Default>(v: T) -> bool {
    call_ensures(T::default, (), v)
}

impl Shuffle {
    /// The selector feeding output channel `c` (0 red .. 3 alpha).
    pub open spec fn selector(self, c: int) -> ShuffleChannel {
        if c == 0 {
            self.red
        } else if c == 1 {
            self.green
        } else if c == 2 {
            self.blue
        } else {
            self.alpha
        }
    }

    /// Byte `j` of the shuffled buffer: within a whole pixel, a copy of the
    /// selected source channel of the same pixel, or a default value for
    /// `Off`; bytes past the last whole pixel are default values.
    pub open spec fn shuffled_byte_ok<T: Default>(self, pixels: Seq<T>, out: Seq<T>, j: int) -> bool {
        if j < (pixels.len() / 4) * 4 {
            let sel = self.selector(j % 4);
            if sel == ShuffleChannel::Off {
                is_default(out[j])
            } else {
                out[j] == pixels[(j / 4) * 4 + channel_offset(sel)]
            }
        } else {
            is_default(out[j])
        }
    }

    /// The identity mapping: red from red, green from green, and so on.
    pub fn new() -> (r: Self)
        ensures
            r.red == ShuffleChannel::R,
            r.green == ShuffleChannel::G,
            r.blue == ShuffleChannel::B,
            r.alpha == ShuffleChannel::A,
    {
        Shuffle {
            red: ShuffleChannel::R,
            green: ShuffleChannel::G,
            blue: ShuffleChannel::B,
            alpha: ShuffleChannel::A,
        }
    }

    /// One output channel's value out of a single RGBA pixel.
    fn channel_value<T: Copy + Default>(pixel: &[T], channel: ShuffleChannel) -> (r: T)
        requires
            pixel@.len() >= 4,
        ensures
            channel == ShuffleChannel::Off ==> is_default(r),
            channel != ShuffleChannel::Off ==> r == pixel@[channel_offset(channel)],
    {
        match channel {
            ShuffleChannel::R => pixel[0],
            ShuffleChannel::G => pixel[1],
            ShuffleChannel::B => pixel[2],
            ShuffleChannel::A => pixel[3],
            ShuffleChannel::Off => T::default(),
        }
    }

    /// The value of output byte `j` (within a whole pixel) of the shuffle.
    fn shuffled_at<T: Copy + Default>(&self, pixels: &[T], base: usize, c: usize) -> (r: T)
        requires
            base + 4 <= pixels.len(),
            c < 4,
        ensures
            self.selector(c as int) == ShuffleChannel::Off ==> is_default(r),
            self.selector(c as int) != ShuffleChannel::Off ==> r == pixels@[base + channel_offset(
                self.selector(c as int),
            )],
    {
        let sel = if c == 0 {
            self.red
        } else if c == 1 {
            self.green
        } else if c == 2 {
            self.blue
        } else {
            self.alpha
        };
        match sel {
            ShuffleChannel::R => pixels[base],
            ShuffleChannel::G => pixels[base + 1],
            ShuffleChannel::B => pixels[base + 2],
            ShuffleChannel::A => pixels[base + 3],
            ShuffleChannel::Off => T::default(),
        }
    }

    /// Remap the channels of a packed RGBA buffer.
    pub fn shuffle_pixels<T: Copy + Default>(&self, pixels: &[T]) -> (out: Vec<T>)
        ensures
            out@.len() == pixels@.len(),
            forall|j: int| 0 <= j < out@.len() ==> #[trigger] self.shuffled_byte_ok(pixels@, out@, j),
    {
        let n = pixels.len();
        let whole = n / 4 * 4;
        let mut out: Vec<T> = Vec::new();
        let mut i: usize = 0;
        while i < whole
            invariant
                n == pixels@.len(),
                whole == (n as int / 4) * 4,
                i <= whole,
                i % 4 == 0,
                out@.len() == i,
                forall|j: int| 0 <= j < out@.len() ==> #[trigger] self.shuffled_byte_ok(pixels@, out@, j),
            decreases whole - i,
        {
            let ghost before = out@;
            let mut c: usize = 0;
            while c < 4
                invariant
                    n == pixels@.len(),
                    whole == (n as int / 4) * 4,
                    i < whole,
                    i % 4 == 0,
                    c <= 4,
                    out@.len() == i + c,
                    out@.subrange(0, i as int) == before,
                    forall|j: int| 0 <= j < i ==> #[trigger] self.shuffled_byte_ok(pixels@, before, j),
                    forall|j: int| i <= j < i + c ==> #[trigger] self.shuffled_byte_ok(pixels@, out@, j),
                decreases 4 - c,
            {
                let v = self.shuffled_at(pixels, i, c);
                let ghost prev = out@;
                out.push(v);
                proof {
                    assert(((i + c) as int) / 4 == i as int / 4);
                    assert((i as int / 4) * 4 == i as int);
                    assert(((i + c) as int) % 4 == c as int);
                    assert forall|j: int| i <= j < i + c + 1 implies #[trigger] self.shuffled_byte_ok(pixels@, out@, j) by {
                        if j < i + c {
                            assert(out@[j] == prev[j]);
                            assert(self.shuffled_byte_ok(pixels@, prev, j));
                        }
                    }
                }
                c = c + 1;
            }
            proof {
                assert forall|j: int| 0 <= j < out@.len() implies #[trigger] self.shuffled_byte_ok(pixels@, out@, j) by {
                    if j < i {
                        assert(out@[j] == before[j]);
                        assert(self.shuffled_byte_ok(pixels@, before, j));
                    }
                }
            }
            i = i + 4;
        }
        while i < n
            invariant
                n == pixels@.len(),
                whole == (n as int / 4) * 4,
                whole <= i <= n,
                out@.len() == i,
                forall|j: int| 0 <= j < out@.len() ==> #[trigger] self.shuffled_byte_ok(pixels@, out@, j),
            decreases n - i,
        {
            let v = T::default();
            let ghost before = out@;
            out.push(v);
            proof {
                assert forall|j: int| 0 <= j < out@.len() implies #[trigger] self.shuffled_byte_ok(pixels@, out@, j) by {
                    if j < i {
                        assert(out@[j] == before[j]);
                        assert(self.shuffled_byte_ok(pixels@, before, j));
                    }
                }
            }
            i = i + 1;
        }
        out
    }

    pub open spec fn spec_descriptor() -> OperationDescriptor {
        OperationDescriptor {
            id: "shuffle",
            menu: "TRANSFORM",
            label: "SHUFFLE",
            action: None,
            ui_action: None,
            create_node: Some("shuffle"),
            submenu: Some("SPECTRA"),
        }
    }

    /// The menu entry: TRANSFORM / SPECTRA / SHUFFLE.
    pub fn descriptor(&self) -> (r: OperationDescriptor)
        ensures
            r == Self::spec_descriptor(),
    {
        OperationDescriptor {
            id: "shuffle",
            menu: "TRANSFORM",
            label: "SHUFFLE",
            action: None,
            ui_action: None,
            create_node: Some("shuffle"),
            submenu: Some("SPECTRA"),
        }
    }

    /// SOURCE and MASK, both taking pixels; one 8-bit image output.
    pub fn metadata(&self) -> (r: OperationMetadata)
        ensures
            crate::operations::shapes::is_metadata_of(r, crate::operations::inventory::OperationKind::Shuffle),
            r.display_name == "Shuffle",
            r.category == OperationCategory::Color,
            r.inputs@.len() == 2,
            r.inputs@[0].kind == Input::Source,
            r.inputs@[0].accepts@ == spec_pixel_kinds(),
            r.inputs@[1].kind == Input::Mask,
            r.inputs@[1].accepts@ == spec_pixel_kinds(),
            r.outputs@ == seq![OutputKind::Image],
    {
        let mut inputs: Vec<InputDescriptor> = Vec::new();
        inputs.push(InputDescriptor { kind: Input::Source, accepts: pixel_kinds() });
        inputs.push(InputDescriptor { kind: Input::Mask, accepts: pixel_kinds() });
        let mut outputs: Vec<OutputKind> = Vec::new();
        outputs.push(OutputKind::Image);
        OperationMetadata { display_name: "Shuffle", category: OperationCategory::Color, inputs, outputs }
    }

    /// RED, GREEN, BLUE and ALPHA, each picked from the channel names.
    pub fn parameters(&self) -> (r: Vec<ParameterDescriptor>)
        ensures
            r@.len() == 4,
            r@[0].name == "RED",
            r@[1].name == "GREEN",
            r@[2].name == "BLUE",
            r@[3].name == "ALPHA",
            forall|i: int| 0 <= i < 4 ==> (#[trigger] r@[i]).group is None
                && (r@[i].kind matches ParameterKind::Enum(options) && options@ == spec_shuffle_channels()),
    {
        let mut r: Vec<ParameterDescriptor> = Vec::new();
        r.push(ParameterDescriptor { name: "RED", kind: ParameterKind::Enum(shuffle_channels()), group: None });
        r.push(ParameterDescriptor { name: "GREEN", kind: ParameterKind::Enum(shuffle_channels()), group: None });
        r.push(ParameterDescriptor { name: "BLUE", kind: ParameterKind::Enum(shuffle_channels()), group: None });
        r.push(ParameterDescriptor { name: "ALPHA", kind: ParameterKind::Enum(shuffle_channels()), group: None });
        r
    }

    /// The selector a parameter name addresses, if any.
    pub open spec fn selector_named(self, name: Seq<char>) -> Option<ShuffleChannel> {
        if name == "RED"@ {
            Some(self.red)
        } else if name == "GREEN"@ {
            Some(self.green)
        } else if name == "BLUE"@ {
            Some(self.blue)
        } else if name == "ALPHA"@ {
            Some(self.alpha)
        } else {
            None
        }
    }

    /// This shuffle with the selector that parameter `name` addresses set
    /// to `c`.
    pub open spec fn with_selector(self, name: Seq<char>, c: ShuffleChannel) -> Shuffle {
        if name == "RED"@ {
            Shuffle { red: c, ..self }
        } else if name == "GREEN"@ {
            Shuffle { green: c, ..self }
        } else if name == "BLUE"@ {
            Shuffle { blue: c, ..self }
        } else {
            Shuffle { alpha: c, ..self }
        }
    }

    /// The current selector of a parameter, as its option name.
    pub fn get_parameter(&self, name: &str) -> (r: Option<Value>)
        ensures
            match self.selector_named(name@) {
                Some(c) => r matches Some(Value::Text(t)) && t@ == channel_name(c)@,
                None => r is None,
            },
    {
        let sel = if text_eq(name, "RED") {
            self.red
        } else if text_eq(name, "GREEN") {
            self.green
        } else if text_eq(name, "BLUE") {
            self.blue
        } else if text_eq(name, "ALPHA") {
            self.alpha
        } else {
            return None;
        };
        Some(Value::Text(owned(sel.to_str())))
    }

    /// Set one selector from a text value holding a channel name. A
    /// non-text value is the wrong type for every parameter; a text value
    /// for an unknown parameter is an unknown parameter; an unknown channel
    /// name is an invalid value. A refused request leaves the selectors as
    /// they were.
    pub fn set_parameter(&mut self, name: &str, value: Value) -> (r: Result<(), OperationError>)
        ensures
            match value {
                Value::Text(s) => match old(self).selector_named(name@) {
                    Some(_) => match channel_named(uppercase_of(s@)) {
                        Some(c) => r is Ok && *final(self) == old(self).with_selector(name@, c),
                        None => *final(self) == *old(self) && (r matches Err(
                            OperationError::InvalidParameterValue(n, v),
                        ) && n@ == name@ && v@ == s@),
                    },
                    None => *final(self) == *old(self) && (r matches Err(OperationError::UnknownParameter(n))
                        && n@ == name@),
                },
                _ => *final(self) == *old(self) && (r matches Err(OperationError::InvalidParameterType(n))
                    && n@ == name@),
            },
    {
        match value {
            Value::Text(s) => {
                let is_red = text_eq(name, "RED");
                let is_green = text_eq(name, "GREEN");
                let is_blue = text_eq(name, "BLUE");
                let is_alpha = text_eq(name, "ALPHA");
                if !(is_red || is_green || is_blue || is_alpha) {
                    return Err(OperationError::UnknownParameter(owned(name)));
                }
                match ShuffleChannel::from_str(s.as_str()) {
                    Some(c) => {
                        if is_red {
                            self.red = c;
                        } else if is_green {
                            self.green = c;
                        } else if is_blue {
                            self.blue = c;
                        } else {
                            self.alpha = c;
                        }
                        Ok(())
                    },
                    None => Err(OperationError::InvalidParameterValue(owned(name), s)),
                }
            },
            _ => Err(OperationError::InvalidParameterType(owned(name))),
        }
    }
}

/// Where a masked SHUFFLE can differ from its source: the box SOURCE
/// reported (shuffling is zero-preserving, so outside it nothing changes)
/// within the box MASK reported; a missing report counts as the whole
/// frame.
pub open spec fn spec_work_area(bboxes: Seq<(Input, Rect)>, width: int, height: int) -> Rect {
    reported_or_full(bboxes, Input::Source, width, height).spec_intersect(
        reported_or_full(bboxes, Input::Mask, width, height),
    )
}

impl Shuffle {
    /// The region a masked SHUFFLE computes; see `spec_work_area`.
    pub fn work_area(ctx: &Context, width: u32, height: u32) -> (r: Rect)
        requires
            width <= i32::MAX,
            height <= i32::MAX,
        ensures
            r == spec_work_area(ctx.input_bboxes@, width as int, height as int),
    {
        let natural_box = reported_box(&ctx.input_bboxes, Input::Source, width, height);
        let mask_box = reported_box(&ctx.input_bboxes, Input::Mask, width, height);
        natural_box.intersect(&mask_box)
    }
}

/// Whether `src` holds exactly a `width` by `height` RGBA frame whose
/// sides fit the box coordinates.
pub open spec fn frame_fits(src: Seq<u8>, width: u32, height: u32) -> bool {
    &&& width <= i32::MAX
    &&& height <= i32::MAX
    &&& src.len() == rgba_len(width as int, height as int)
}

/// Whether `(x, y)` is a pixel of a `width` by `height` frame.
pub open spec fn pixel_in_frame(x: u32, y: u32, width: u32, height: u32) -> bool {
    x < width && y < height
}

/// The four channels of one 8-bit RGBA pixel.
pub type Rgba8Pixel = [u8; 4];

/// One 8-bit output channel picked from a pixel: a copy of the selected
/// channel, or zero for `Off`.
pub open spec fn pick(px: [u8; 4], c: ShuffleChannel) -> u8 {
    match c {
        ShuffleChannel::R => px[0],
        ShuffleChannel::G => px[1],
        ShuffleChannel::B => px[2],
        ShuffleChannel::A => px[3],
        ShuffleChannel::Off => 0,
    }
}

/// An 8-bit value `u8::default()` returns is zero.
proof fn lemma_u8_default(v: u8)
    requires
        is_default(v),
    ensures
        v == 0,
{
}

impl Shuffle {
    /// One 8-bit pixel shuffled.
    pub open spec fn shuffle_px(self, px: [u8; 4]) -> [u8; 4] {
        [pick(px, self.red), pick(px, self.green), pick(px, self.blue), pick(px, self.alpha)]
    }

    /// Pixel `(x, y)` of `src`, `width` wide, shuffled.
    pub open spec fn shuffle_at(self, src: Seq<u8>, width: u32, x: u32, y: u32) -> [u8; 4] {
        self.shuffle_px(pixel_of(src, width as int, x as int, y as int))
    }

    /// Whether `px` is pixel `(x, y)` of `src`, `width` wide, shuffled.
    pub open spec fn shuffles_to(self, src: Seq<u8>, width: u32, x: u32, y: u32, px: [u8; 4]) -> bool {
        px == self.shuffle_at(src, width, x, y)
    }

    /// Whether `out` is the 8-bit SHUFFLE of `src` (`width` by `height`)
    /// through `mask`, computed inside `area` only: a pixel of `area` is
    /// the shuffled pixel blended toward the source pixel by the mask
    /// pixel's alpha; every other pixel is the source pixel.
    pub open spec fn masked_shuffle(self, src: Seq<u8>, mask: Seq<u8>, width: int, height: int, area: Rect, out: Seq<u8>) -> bool {
        &&& out.len() == src.len()
        &&& forall|x: int, y: int|
            0 <= x < width && 0 <= y < height ==> #[trigger] pixel_of(out, width, x, y) == if in_work_area(
                area,
                width,
                height,
                x,
                y,
            ) {
                blend_pixel(pixel_of(src, width, x, y), self.shuffle_px(pixel_of(src, width, x, y)), pixel_of(mask, width, x, y)[3])
            } else {
                pixel_of(src, width, x, y)
            }
    }

    /// Run SHUFFLE on 8-bit pixels, also reporting how many pixels the
    /// masked path computed. With nothing wired into SOURCE the result is
    /// the missing-input placeholder at the graph's resolution. SOURCE must
    /// carry RGBA pixels (an image or a frame). Without a MASK every pixel
    /// is shuffled and no count is reported. With one, the MASK must be
    /// pixels of SOURCE's size, and only the work area (see `work_area`) is
    /// shuffled and blended through MASK's alpha; the rest is SOURCE as it
    /// was, and the count is the work area's pixels.
    pub fn execute_counted(&self, ctx: &Context, inputs: &[(Input, Value)]) -> (r: Result<(Vec<Value>, Option<u64>), OperationError>)
        requires
            !has_entry(inputs@, Input::Source) ==> rgba_len(ctx.meta.width as int, ctx.meta.height as int) <= u32::MAX,
        ensures
            match wired(inputs@, Input::Source) {
                None => r matches Ok((vals, None)) && vals@.len() == 1
                    && (vals@[0] matches Value::Image(img) && is_placeholder(*img, ctx.meta.width, ctx.meta.height)),
                Some(sv) => match value_rgba(sv) {
                    None => r matches Err(OperationError::WrongValueType),
                    Some((src, w, h)) => match wired(inputs@, Input::Mask) {
                        None => r matches Ok((vals, None)) && vals@.len() == 1 && (vals@[0] matches Value::Image(img)
                            && img.width == w && img.height == h && img.pixels@.len() == src.len()
                            && forall|j: int| 0 <= j < src.len() ==> #[trigger] self.shuffled_byte_ok(src, img.pixels@, j)),
                        Some(mv) => match value_rgba(mv) {
                            None => r matches Err(OperationError::WrongValueType),
                            Some((m, _, _)) => if src.len() == rgba_len(w as int, h as int) && m.len() == src.len()
                                && w <= i32::MAX && h <= i32::MAX {
                                r matches Ok((vals, Some(count))) && vals@.len() == 1
                                    && (vals@[0] matches Value::Image(img) && img.width == w && img.height == h
                                    && self.masked_shuffle(src, m, w as int, h as int,
                                        spec_work_area(ctx.input_bboxes@, w as int, h as int), img.pixels@))
                                    && count == spec_work_area(ctx.input_bboxes@, w as int, h as int).spec_intersect(
                                        Rect::spec_full(w as int, h as int)).spec_area()
                            } else {
                                r matches Err(OperationError::InvalidInputType(_))
                            },
                        },
                    },
                },
            },
    {
        let source = match find_input(inputs, Input::Source) {
            None => {
                let mut vals: Vec<Value> = Vec::new();
                vals.push(Value::Image(U8Image::missing(ctx.meta.width, ctx.meta.height)));
                return Ok((vals, None));
            },
            Some(v) => v,
        };
        let (src, width, height) = match rgba_of(source) {
            None => return Err(OperationError::WrongValueType),
            Some(t) => t,
        };
        let m = match find_input(inputs, Input::Mask) {
            None => {
                let out = self.shuffle_pixels(src);
                let mut vals: Vec<Value> = Vec::new();
                vals.push(image_of(out, width, height));
                return Ok((vals, None));
            },
            Some(mv) => match rgba_of(mv) {
                None => return Err(OperationError::WrongValueType),
                Some((m, _, _)) => m,
            },
        };
        if width > 0x7fff_ffff || height > 0x7fff_ffff {
            return Err(OperationError::InvalidInputType(crate::text::owned("MASK must match the size of the image it masks")));
        }
        assert((width as int) * (height as int) * 4 <= 0x7fff_ffff * 0x7fff_ffff * 4) by (nonlinear_arith)
            requires width <= 0x7fff_ffff, height <= 0x7fff_ffff;
        let bytes = (width as u64) * (height as u64) * 4;
        if (src.len() as u64) != bytes || m.len() != src.len() {
            return Err(OperationError::InvalidInputType(crate::text::owned("MASK must match the size of the image it masks")));
        }
        let area = Self::work_area(ctx, width, height);
        let me = *self;
        let (shuffled, count) = compute_within_bbox(
            width,
            height,
            area,
            src,
            |x: u32, y: u32| -> (px: Rgba8Pixel)
                requires
                    pixel_in_frame(x, y, width, height),
                    frame_fits(src@, width, height),
                ensures me.shuffles_to(src@, width, x, y, px)
                {
                    proof {
                        lemma_byte_in_bounds(width as int, height as int, x as int, y as int, 3);
                    }
                    assert(0 <= (y as int) * (width as int)) by (nonlinear_arith)
                        requires 0 <= y, 0 <= width;
                    let base = ((y as usize) * (width as usize) + (x as usize)) * 4;
                    let pixel = vstd::slice::slice_subrange(src, base, base + 4);
                    let r = Self::channel_value(pixel, me.red);
                    let g = Self::channel_value(pixel, me.green);
                    let b = Self::channel_value(pixel, me.blue);
                    let a = Self::channel_value(pixel, me.alpha);
                    proof {
                        if me.red == ShuffleChannel::Off { lemma_u8_default(r); }
                        if me.green == ShuffleChannel::Off { lemma_u8_default(g); }
                        if me.blue == ShuffleChannel::Off { lemma_u8_default(b); }
                        if me.alpha == ShuffleChannel::Off { lemma_u8_default(a); }
                    }
                    let px = [r, g, b, a];
                    assert(px =~= me.shuffle_at(src@, width, x, y));
                    px
                },
        );
        let ghost sh = shuffled@;
        let out = match apply_mask(src, shuffled, Some(m)) {
            Ok(out) => out,
            Err(e) => return Err(e),
        };
        proof {
            let w = width as int;
            let h = height as int;
            assert forall|x: int, y: int| 0 <= x < w && 0 <= y < h implies #[trigger] pixel_of(out@, w, x, y) == if in_work_area(
                area, w, h, x, y,
            ) {
                blend_pixel(pixel_of(src@, w, x, y), me.shuffle_px(pixel_of(src@, w, x, y)), pixel_of(m@, w, x, y)[3])
            } else {
                pixel_of(src@, w, x, y)
            } by {
                lemma_byte_in_bounds(w, h, x, y, 3);
                let p = y * w + x;
                assert(p * 4 + 3 < out@.len());
                assert forall|c: int| 0 <= c < 4 implies (#[trigger] ((p * 4 + c) / 4)) * 4 + 3 == p * 4 + 3 by {
                    vstd::arithmetic::div_mod::lemma_fundamental_div_mod_converse_div(p * 4 + c, 4, p, c);
                }
                assert(masked_byte(src@, sh, m@, p * 4) == out@[p * 4]);
                assert(masked_byte(src@, sh, m@, p * 4 + 1) == out@[p * 4 + 1]);
                assert(masked_byte(src@, sh, m@, p * 4 + 2) == out@[p * 4 + 2]);
                assert(masked_byte(src@, sh, m@, p * 4 + 3) == out@[p * 4 + 3]);
                let o = pixel_of(src@, w, x, y);
                let q = pixel_of(sh, w, x, y);
                let al = pixel_of(m@, w, x, y)[3];
                if !in_work_area(area, w, h, x, y) {
                    assert(q == o);
                    lemma_mask_blend(o[0], o[0], al);
                    lemma_mask_blend(o[1], o[1], al);
                    lemma_mask_blend(o[2], o[2], al);
                    lemma_mask_blend(o[3], o[3], al);
                    assert(pixel_of(out@, w, x, y) =~= o);
                } else {
                    assert(pixel_of(out@, w, x, y) =~= blend_pixel(o, q, al));
                }
            }
        }
        let mut vals: Vec<Value> = Vec::new();
        vals.push(image_of(out, width, height));
        Ok((vals, Some(count)))
    }

    /// Run SHUFFLE on 8-bit pixels; see `execute_counted`.
    pub fn execute(&self, ctx: &Context, inputs: &[(Input, Value)]) -> (r: Result<Vec<Value>, OperationError>)
        requires
            !has_entry(inputs@, Input::Source) ==> rgba_len(ctx.meta.width as int, ctx.meta.height as int) <= u32::MAX,
        ensures
            match wired(inputs@, Input::Source) {
                None => r matches Ok(vals) && vals@.len() == 1
                    && (vals@[0] matches Value::Image(img) && is_placeholder(*img, ctx.meta.width, ctx.meta.height)),
                Some(sv) => match value_rgba(sv) {
                    None => r matches Err(OperationError::WrongValueType),
                    Some((src, w, h)) => match wired(inputs@, Input::Mask) {
                        None => r matches Ok(vals) && vals@.len() == 1 && (vals@[0] matches Value::Image(img)
                            && img.width == w && img.height == h && img.pixels@.len() == src.len()
                            && forall|j: int| 0 <= j < src.len() ==> #[trigger] self.shuffled_byte_ok(src, img.pixels@, j)),
                        Some(mv) => match value_rgba(mv) {
                            None => r matches Err(OperationError::WrongValueType),
                            Some((m, _, _)) => if src.len() == rgba_len(w as int, h as int) && m.len() == src.len()
                                && w <= i32::MAX && h <= i32::MAX {
                                r matches Ok(vals) && vals@.len() == 1
                                    && (vals@[0] matches Value::Image(img) && img.width == w && img.height == h
                                    && self.masked_shuffle(src, m, w as int, h as int,
                                        spec_work_area(ctx.input_bboxes@, w as int, h as int), img.pixels@))
                            } else {
                                r matches Err(OperationError::InvalidInputType(_))
                            },
                        },
                    },
                },
            },
    {
        match self.execute_counted(ctx, inputs) {
            Ok((vals, _)) => Ok(vals),
            Err(e) => Err(e),
        }
    }
}

/// Whether the boxes reported in `bboxes` are truthful about `src` and
/// `mask` (both `width` by `height`): MASK's alpha is zero at every pixel
/// outside the box MASK reported, and SOURCE is all zero at every pixel
/// outside the box SOURCE reported. A missing report is the whole frame.
pub open spec fn boxes_truthful(bboxes: Seq<(Input, Rect)>, src: Seq<u8>, mask: Seq<u8>, width: int, height: int) -> bool {
    forall|x: int, y: int|
        0 <= x < width && 0 <= y < height ==> {
            &&& !reported_or_full(bboxes, Input::Mask, width, height).covers(x, y) ==> #[trigger] pixel_of(mask, width, x, y)[3] == 0
            &&& !reported_or_full(bboxes, Input::Source, width, height).covers(x, y) ==> #[trigger] pixel_of(src, width, x, y) == [0u8, 0u8, 0u8, 0u8]
        }
}

/// Computing a masked SHUFFLE only inside its work area gives the same
/// image as computing it over the whole frame, whenever the boxes the
/// inputs reported are truthful.
pub proof fn lemma_work_area_is_exact(
    s: Shuffle,
    src: Seq<u8>,
    mask: Seq<u8>,
    width: int,
    height: int,
    bboxes: Seq<(Input, Rect)>,
    out: Seq<u8>,
)
    requires
        0 <= width <= i32::MAX,
        0 <= height <= i32::MAX,
        s.masked_shuffle(src, mask, width, height, spec_work_area(bboxes, width, height), out),
        boxes_truthful(bboxes, src, mask, width, height),
    ensures
        s.masked_shuffle(src, mask, width, height, Rect::spec_full(width, height), out),
{
    let area = spec_work_area(bboxes, width, height);
    let full = Rect::spec_full(width, height);
    let sbox = reported_or_full(bboxes, Input::Source, width, height);
    let mbox = reported_or_full(bboxes, Input::Mask, width, height);
    assert forall|x: int, y: int| 0 <= x < width && 0 <= y < height implies #[trigger] pixel_of(out, width, x, y) == if in_work_area(
        full, width, height, x, y,
    ) {
        blend_pixel(pixel_of(src, width, x, y), s.shuffle_px(pixel_of(src, width, x, y)), pixel_of(mask, width, x, y)[3])
    } else {
        pixel_of(src, width, x, y)
    } by {
        crate::compositor::bbox::lemma_intersect_covers(full, full, x, y);
        assert(in_work_area(full, width, height, x, y));
        let o = pixel_of(src, width, x, y);
        let a = pixel_of(mask, width, x, y)[3];
        if !in_work_area(area, width, height, x, y) {
            crate::compositor::bbox::lemma_intersect_covers(area, full, x, y);
            crate::compositor::bbox::lemma_intersect_covers(sbox, mbox, x, y);
            assert(!sbox.covers(x, y) || !mbox.covers(x, y));
            if !mbox.covers(x, y) {
                assert(a == 0);
                lemma_mask_blend(o[0], pick(o, s.red), a);
                lemma_mask_blend(o[1], pick(o, s.green), a);
                lemma_mask_blend(o[2], pick(o, s.blue), a);
                lemma_mask_blend(o[3], pick(o, s.alpha), a);
            } else {
                assert(o == [0u8, 0u8, 0u8, 0u8]);
                assert(s.shuffle_px(o) =~= o);
                lemma_mask_blend(o[0], o[0], a);
            }
            assert(blend_pixel(o, s.shuffle_px(o), a) =~= o);
        }
    }
}

/// Two runs of a masked SHUFFLE on the same SOURCE and MASK, one told the
/// boxes in `bboxes` and one told no boxes at all (so working over the
/// whole frame), give the same image whenever the boxes in `bboxes` are
/// truthful. `out_r` and `out_f` are those two results as
/// `execute_counted` states them.
pub proof fn lemma_reported_boxes_keep_the_result(
    s: Shuffle,
    src: Seq<u8>,
    mask: Seq<u8>,
    width: int,
    height: int,
    bboxes: Seq<(Input, Rect)>,
    out_r: Seq<u8>,
    out_f: Seq<u8>,
)
    requires
        0 <= width <= i32::MAX,
        0 <= height <= i32::MAX,
        src.len() == rgba_len(width, height),
        s.masked_shuffle(src, mask, width, height, spec_work_area(bboxes, width, height), out_r),
        s.masked_shuffle(src, mask, width, height, spec_work_area(Seq::empty(), width, height), out_f),
        boxes_truthful(bboxes, src, mask, width, height),
    ensures
        out_r == out_f,
{
    lemma_work_area_is_exact(s, src, mask, width, height, bboxes, out_r);
    let full = Rect::spec_full(width, height);
    let none: Seq<(Input, Rect)> = Seq::empty();
    assert(!crate::compositor::context::has_entry(none, Input::Source));
    assert(!crate::compositor::context::has_entry(none, Input::Mask));
    assert(spec_work_area(none, width, height) == full.spec_intersect(full));
    assert forall|j: int| 0 <= j < out_r.len() implies out_r[j] == out_f[j] by {
        if width > 0 {
            lemma_byte_decompose(width, height, j);
            let x = crate::graphics::byte_x(j, width);
            let y = crate::graphics::byte_y(j, width);
            crate::compositor::bbox::lemma_intersect_covers(full, full, x, y);
            crate::compositor::bbox::lemma_intersect_covers(full.spec_intersect(full), full, x, y);
            assert(pixel_of(out_r, width, x, y) == pixel_of(out_f, width, x, y));
        } else {
            assert(width * height * 4 == 0) by (nonlinear_arith)
                requires width == 0;
        }
    }
    assert(out_r =~= out_f);
}

/// A masked SHUFFLE never computes more pixels than the frame holds: the
/// count `execute_counted` reports is at most `width * height`, and at most
/// the pixels of the box MASK reported.
pub proof fn lemma_work_area_count_bounded(bboxes: Seq<(Input, Rect)>, width: int, height: int)
    requires
        0 <= width <= i32::MAX,
        0 <= height <= i32::MAX,
    ensures
        spec_work_area(bboxes, width, height).spec_intersect(Rect::spec_full(width, height)).spec_area() <= width * height,
        spec_work_area(bboxes, width, height).spec_intersect(Rect::spec_full(width, height)).spec_area()
            <= reported_or_full(bboxes, Input::Mask, width, height).spec_area(),
{
    let sbox = reported_or_full(bboxes, Input::Source, width, height);
    let mbox = reported_or_full(bboxes, Input::Mask, width, height);
    let area = spec_work_area(bboxes, width, height);
    let full = Rect::spec_full(width, height);
    crate::compositor::bbox::lemma_intersect_area_bounded(area, full);
    crate::compositor::bbox::lemma_intersect_area_bounded(sbox, mbox);
    if !full.spec_is_empty() {
        assert(full.spec_area() == width * height);
    } else {
        assert(full.spec_area() == 0);
        assert(0 <= width * height) by (nonlinear_arith)
            requires 0 <= width, 0 <= height;
    }
}

/// Shuffling never invents content: a buffer of default values (zero for
/// 8-bit channels) shuffles to a buffer of default values, whatever the
/// channel mapping.
#[verifier::spinoff_prover]
pub proof fn lemma_shuffle_preserves_default<T: Default>(s: Shuffle, pixels: Seq<T>, out: Seq<T>)
    requires
        out.len() == pixels.len(),
        forall|j: int| 0 <= j < out.len() ==> #[trigger] s.shuffled_byte_ok(pixels, out, j),
        forall|j: int| 0 <= j < pixels.len() ==> is_default(#[trigger] pixels[j]),
    ensures
        forall|j: int| 0 <= j < out.len() ==> is_default(#[trigger] out[j]),
{
    assert forall|j: int| 0 <= j < out.len() implies is_default(#[trigger] out[j]) by {
        assert(s.shuffled_byte_ok(pixels, out, j));
        if j < (pixels.len() / 4) * 4 && s.selector(j % 4) != ShuffleChannel::Off {
            let k = (j / 4) * 4 + channel_offset(s.selector(j % 4));
            assert(0 <= k < pixels.len());
            assert(is_default(pixels[k]));
        }
    }
}

/// The mapping `Shuffle::new()` builds: each channel from itself.
pub open spec fn identity_shuffle() -> Shuffle {
    Shuffle { red: ShuffleChannel::R, green: ShuffleChannel::G, blue: ShuffleChannel::B, alpha: ShuffleChannel::A }
}

/// The identity mapping leaves every whole pixel unchanged.
pub proof fn lemma_identity_shuffle_keeps_pixels<T: Default>(pixels: Seq<T>, out: Seq<T>)
    requires
        out.len() == pixels.len(),
        forall|j: int| 0 <= j < out.len() ==> #[trigger] identity_shuffle().shuffled_byte_ok(pixels, out, j),
    ensures
        forall|j: int| 0 <= j < (pixels.len() / 4) * 4 ==> #[trigger] out[j] == pixels[j],
{
    let s = identity_shuffle();
    assert forall|j: int| 0 <= j < (pixels.len() / 4) * 4 implies #[trigger] out[j] == pixels[j] by {
        assert(s.shuffled_byte_ok(pixels, out, j));
        assert((j / 4) * 4 + j % 4 == j);
    }
}

} // verus!
