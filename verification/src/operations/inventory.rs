//! The operation catalogue: every operation the engine offers, with the
//! menu entry and category each declares, read once from the catalogue
//! instead of from a throwaway instance per question.

use vstd::prelude::*;
use crate::compositor::OperationDescriptor;
use crate::compositor::metadata::OperationCategory;
use crate::compositor::registry::{ids_unique, registered, OperationRegistry};
use crate::text::text_eq;

verus! {

/// One operation type of the catalogue; the host builds the operation
/// itself from it.
#[derive(Clone, Copy, Debug, PartialEq, Eq, Structural)]
pub enum OperationKind {
    Lissajous,
    Sine,
    Square,
    Add,
    Mix,
    Multiply,
    Patch,
    Screen,
    Subtract,
    Checkerboard,
    Ghosts,
    Ring,
    ChromaKey,
    HueKey,
    Render,
    CameraSource,
    ImageSource,
    Blur,
    Clamp,
    Invert,
    Move,
    Resize,
    RgbToHsv,
    Shuffle,
}

/// What building an operation starts from: the operation type to build.
pub type OperationConstructor = OperationKind;

/// The menu entry each operation type declares.
pub open spec fn descriptor_of(kind: OperationKind) -> OperationDescriptor {
    match kind {
        OperationKind::Lissajous =>
            OperationDescriptor {
                id: "lissajous",
                menu: "ANIMATE",
                label: "LISSAJOUS",
                action: None,
                ui_action: None,
                create_node: Some("lissajous"),
                submenu: None,
            },
        OperationKind::Sine =>
            OperationDescriptor {
                id: "sine",
                menu: "ANIMATE",
                label: "SINE",
                action: None,
                ui_action: None,
                create_node: Some("sine"),
                submenu: None,
            },
        OperationKind::Square =>
            OperationDescriptor {
                id: "square",
                menu: "ANIMATE",
                label: "SQUARE",
                action: None,
                ui_action: None,
                create_node: Some("square"),
                submenu: None,
            },
        OperationKind::Add =>
            OperationDescriptor {
                id: "add",
                menu: "COMPOSE",
                label: "ADD",
                action: None,
                ui_action: None,
                create_node: Some("add"),
                submenu: None,
            },
        OperationKind::Mix =>
            OperationDescriptor {
                id: "mix",
                menu: "COMPOSE",
                label: "MIX",
                action: None,
                ui_action: None,
                create_node: Some("mix"),
                submenu: None,
            },
        OperationKind::Multiply =>
            OperationDescriptor {
                id: "multiply",
                menu: "COMPOSE",
                label: "MULTIPLY",
                action: None,
                ui_action: None,
                create_node: Some("multiply"),
                submenu: None,
            },
        OperationKind::Patch =>
            OperationDescriptor {
                id: "patch",
                menu: "COMPOSE",
                label: "PATCH",
                action: None,
                ui_action: None,
                create_node: Some("patch"),
                submenu: None,
            },
        OperationKind::Screen =>
            OperationDescriptor {
                id: "screen",
                menu: "COMPOSE",
                label: "SCREEN",
                action: None,
                ui_action: None,
                create_node: Some("screen"),
                submenu: None,
            },
        OperationKind::Subtract =>
            OperationDescriptor {
                id: "subtract",
                menu: "COMPOSE",
                label: "SUBTRACT",
                action: None,
                ui_action: None,
                create_node: Some("subtract"),
                submenu: None,
            },
        OperationKind::Checkerboard =>
            OperationDescriptor {
                id: "checkerboard",
                menu: "GENERATE",
                label: "CHECKERBOARD",
                action: None,
                ui_action: None,
                create_node: Some("checkerboard"),
                submenu: None,
            },
        OperationKind::Ghosts =>
            OperationDescriptor {
                id: "ghost",
                menu: "GENERATE",
                label: "GHOST",
                action: None,
                ui_action: None,
                create_node: Some("ghost"),
                submenu: None,
            },
        OperationKind::Ring =>
            OperationDescriptor {
                id: "ring",
                menu: "GENERATE",
                label: "RING",
                action: None,
                ui_action: None,
                create_node: Some("ring"),
                submenu: None,
            },
        OperationKind::ChromaKey =>
            OperationDescriptor {
                id: "chromakey",
                menu: "KEY",
                label: "CHROMA KEY",
                action: None,
                ui_action: None,
                create_node: Some("chromakey"),
                submenu: None,
            },
        OperationKind::HueKey =>
            OperationDescriptor {
                id: "hue_key",
                menu: "KEY",
                label: "HUE KEY",
                action: None,
                ui_action: None,
                create_node: Some("hue_key"),
                submenu: None,
            },
        OperationKind::Render =>
            OperationDescriptor {
                id: "render",
                menu: "OUTPUT",
                label: "RENDER",
                action: None,
                ui_action: None,
                create_node: Some("render"),
                submenu: None,
            },
        OperationKind::CameraSource =>
            OperationDescriptor {
                id: "camera_source",
                menu: "INPUT",
                label: "CAMERA",
                action: None,
                ui_action: Some("open_camera_stream"),
                create_node: None,
                submenu: None,
            },
        OperationKind::ImageSource =>
            OperationDescriptor {
                id: "image_source",
                menu: "INPUT",
                label: "LOAD IMAGE",
                action: None,
                ui_action: Some("open_image_picker"),
                create_node: None,
                submenu: None,
            },
        OperationKind::Blur =>
            OperationDescriptor {
                id: "blur",
                menu: "TRANSFORM",
                label: "BLUR",
                action: None,
                ui_action: None,
                create_node: Some("blur"),
                submenu: Some("ASTRA"),
            },
        OperationKind::Clamp =>
            OperationDescriptor {
                id: "clamp",
                menu: "TRANSFORM",
                label: "CLAMP",
                action: None,
                ui_action: None,
                create_node: Some("clamp"),
                submenu: Some("SPECTRA"),
            },
        OperationKind::Invert =>
            OperationDescriptor {
                id: "invert",
                menu: "TRANSFORM",
                label: "INVERT",
                action: None,
                ui_action: None,
                create_node: Some("invert"),
                submenu: Some("SPECTRA"),
            },
        OperationKind::Move =>
            OperationDescriptor {
                id: "move",
                menu: "TRANSFORM",
                label: "MOVE",
                action: None,
                ui_action: None,
                create_node: Some("move"),
                submenu: Some("KINETIC"),
            },
        OperationKind::Resize =>
            OperationDescriptor {
                id: "resize",
                menu: "TRANSFORM",
                label: "RESIZE",
                action: None,
                ui_action: None,
                create_node: Some("resize"),
                submenu: Some("KINETIC"),
            },
        OperationKind::RgbToHsv =>
            OperationDescriptor {
                id: "rgb_to_hsv",
                menu: "TRANSFORM",
                label: "RGB TO HSV",
                action: None,
                ui_action: None,
                create_node: Some("rgb_to_hsv"),
                submenu: Some("SPECTRA"),
            },
        OperationKind::Shuffle =>
            OperationDescriptor {
                id: "shuffle",
                menu: "TRANSFORM",
                label: "SHUFFLE",
                action: None,
                ui_action: None,
                create_node: Some("shuffle"),
                submenu: Some("SPECTRA"),
            },
    }
}

/// The category each operation type declares.
pub open spec fn category_of(kind: OperationKind) -> OperationCategory {
    match kind {
        OperationKind::Lissajous => OperationCategory::Animation,
        OperationKind::Sine => OperationCategory::Animation,
        OperationKind::Square => OperationCategory::Animation,
        OperationKind::Add => OperationCategory::Color,
        OperationKind::Mix => OperationCategory::Composite,
        OperationKind::Multiply => OperationCategory::Color,
        OperationKind::Patch => OperationCategory::Composite,
        OperationKind::Screen => OperationCategory::Color,
        OperationKind::Subtract => OperationCategory::Color,
        OperationKind::Checkerboard => OperationCategory::Generator,
        OperationKind::Ghosts => OperationCategory::Composite,
        OperationKind::Ring => OperationCategory::Generator,
        OperationKind::ChromaKey => OperationCategory::Mask,
        OperationKind::HueKey => OperationCategory::Mask,
        OperationKind::Render => OperationCategory::Output,
        OperationKind::CameraSource => OperationCategory::Source,
        OperationKind::ImageSource => OperationCategory::Source,
        OperationKind::Blur => OperationCategory::Color,
        OperationKind::Clamp => OperationCategory::Color,
        OperationKind::Invert => OperationCategory::Color,
        OperationKind::Move => OperationCategory::Color,
        OperationKind::Resize => OperationCategory::Color,
        OperationKind::RgbToHsv => OperationCategory::Color,
        OperationKind::Shuffle => OperationCategory::Color,
    }
}

/// Every operation type, in catalogue order.
pub open spec fn catalogue() -> Seq<OperationKind> {
    seq![
        OperationKind::Lissajous,
        OperationKind::Sine,
        OperationKind::Square,
        OperationKind::Add,
        OperationKind::Mix,
        OperationKind::Multiply,
        OperationKind::Patch,
        OperationKind::Screen,
        OperationKind::Subtract,
        OperationKind::Checkerboard,
        OperationKind::Ghosts,
        OperationKind::Ring,
        OperationKind::ChromaKey,
        OperationKind::HueKey,
        OperationKind::Render,
        OperationKind::CameraSource,
        OperationKind::ImageSource,
        OperationKind::Blur,
        OperationKind::Clamp,
        OperationKind::Invert,
        OperationKind::Move,
        OperationKind::Resize,
        OperationKind::RgbToHsv,
        OperationKind::Shuffle
    ]
}

impl OperationKind {
    /// The menu entry this operation type declares.
    pub fn descriptor(&self) -> (r: OperationDescriptor)
        ensures
            r == descriptor_of(*self),
    {
        match self {
        OperationKind::Lissajous =>
            OperationDescriptor {
                id: "lissajous",
                menu: "ANIMATE",
                label: "LISSAJOUS",
                action: None,
                ui_action: None,
                create_node: Some("lissajous"),
                submenu: None,
            },
        OperationKind::Sine =>
            OperationDescriptor {
                id: "sine",
                menu: "ANIMATE",
                label: "SINE",
                action: None,
                ui_action: None,
                create_node: Some("sine"),
                submenu: None,
            },
        OperationKind::Square =>
            OperationDescriptor {
                id: "square",
                menu: "ANIMATE",
                label: "SQUARE",
                action: None,
                ui_action: None,
                create_node: Some("square"),
                submenu: None,
            },
        OperationKind::Add =>
            OperationDescriptor {
                id: "add",
                menu: "COMPOSE",
                label: "ADD",
                action: None,
                ui_action: None,
                create_node: Some("add"),
                submenu: None,
            },
        OperationKind::Mix =>
            OperationDescriptor {
                id: "mix",
                menu: "COMPOSE",
                label: "MIX",
                action: None,
                ui_action: None,
                create_node: Some("mix"),
                submenu: None,
            },
        OperationKind::Multiply =>
            OperationDescriptor {
                id: "multiply",
                menu: "COMPOSE",
                label: "MULTIPLY",
                action: None,
                ui_action: None,
                create_node: Some("multiply"),
                submenu: None,
            },
        OperationKind::Patch =>
            OperationDescriptor {
                id: "patch",
                menu: "COMPOSE",
                label: "PATCH",
                action: None,
                ui_action: None,
                create_node: Some("patch"),
                submenu: None,
            },
        OperationKind::Screen =>
            OperationDescriptor {
                id: "screen",
                menu: "COMPOSE",
                label: "SCREEN",
                action: None,
                ui_action: None,
                create_node: Some("screen"),
                submenu: None,
            },
        OperationKind::Subtract =>
            OperationDescriptor {
                id: "subtract",
                menu: "COMPOSE",
                label: "SUBTRACT",
                action: None,
                ui_action: None,
                create_node: Some("subtract"),
                submenu: None,
            },
        OperationKind::Checkerboard =>
            OperationDescriptor {
                id: "checkerboard",
                menu: "GENERATE",
                label: "CHECKERBOARD",
                action: None,
                ui_action: None,
                create_node: Some("checkerboard"),
                submenu: None,
            },
        OperationKind::Ghosts =>
            OperationDescriptor {
                id: "ghost",
                menu: "GENERATE",
                label: "GHOST",
                action: None,
                ui_action: None,
                create_node: Some("ghost"),
                submenu: None,
            },
        OperationKind::Ring =>
            OperationDescriptor {
                id: "ring",
                menu: "GENERATE",
                label: "RING",
                action: None,
                ui_action: None,
                create_node: Some("ring"),
                submenu: None,
            },
        OperationKind::ChromaKey =>
            OperationDescriptor {
                id: "chromakey",
                menu: "KEY",
                label: "CHROMA KEY",
                action: None,
                ui_action: None,
                create_node: Some("chromakey"),
                submenu: None,
            },
        OperationKind::HueKey =>
            OperationDescriptor {
                id: "hue_key",
                menu: "KEY",
                label: "HUE KEY",
                action: None,
                ui_action: None,
                create_node: Some("hue_key"),
                submenu: None,
            },
        OperationKind::Render =>
            OperationDescriptor {
                id: "render",
                menu: "OUTPUT",
                label: "RENDER",
                action: None,
                ui_action: None,
                create_node: Some("render"),
                submenu: None,
            },
        OperationKind::CameraSource =>
            OperationDescriptor {
                id: "camera_source",
                menu: "INPUT",
                label: "CAMERA",
                action: None,
                ui_action: Some("open_camera_stream"),
                create_node: None,
                submenu: None,
            },
        OperationKind::ImageSource =>
            OperationDescriptor {
                id: "image_source",
                menu: "INPUT",
                label: "LOAD IMAGE",
                action: None,
                ui_action: Some("open_image_picker"),
                create_node: None,
                submenu: None,
            },
        OperationKind::Blur =>
            OperationDescriptor {
                id: "blur",
                menu: "TRANSFORM",
                label: "BLUR",
                action: None,
                ui_action: None,
                create_node: Some("blur"),
                submenu: Some("ASTRA"),
            },
        OperationKind::Clamp =>
            OperationDescriptor {
                id: "clamp",
                menu: "TRANSFORM",
                label: "CLAMP",
                action: None,
                ui_action: None,
                create_node: Some("clamp"),
                submenu: Some("SPECTRA"),
            },
        OperationKind::Invert =>
            OperationDescriptor {
                id: "invert",
                menu: "TRANSFORM",
                label: "INVERT",
                action: None,
                ui_action: None,
                create_node: Some("invert"),
                submenu: Some("SPECTRA"),
            },
        OperationKind::Move =>
            OperationDescriptor {
                id: "move",
                menu: "TRANSFORM",
                label: "MOVE",
                action: None,
                ui_action: None,
                create_node: Some("move"),
                submenu: Some("KINETIC"),
            },
        OperationKind::Resize =>
            OperationDescriptor {
                id: "resize",
                menu: "TRANSFORM",
                label: "RESIZE",
                action: None,
                ui_action: None,
                create_node: Some("resize"),
                submenu: Some("KINETIC"),
            },
        OperationKind::RgbToHsv =>
            OperationDescriptor {
                id: "rgb_to_hsv",
                menu: "TRANSFORM",
                label: "RGB TO HSV",
                action: None,
                ui_action: None,
                create_node: Some("rgb_to_hsv"),
                submenu: Some("SPECTRA"),
            },
        OperationKind::Shuffle =>
            OperationDescriptor {
                id: "shuffle",
                menu: "TRANSFORM",
                label: "SHUFFLE",
                action: None,
                ui_action: None,
                create_node: Some("shuffle"),
                submenu: Some("SPECTRA"),
            },
        }
    }

    /// The category this operation type declares.
    pub fn category(&self) -> (r: OperationCategory)
        ensures
            r == category_of(*self),
    {
        match self {
        OperationKind::Lissajous => OperationCategory::Animation,
        OperationKind::Sine => OperationCategory::Animation,
        OperationKind::Square => OperationCategory::Animation,
        OperationKind::Add => OperationCategory::Color,
        OperationKind::Mix => OperationCategory::Composite,
        OperationKind::Multiply => OperationCategory::Color,
        OperationKind::Patch => OperationCategory::Composite,
        OperationKind::Screen => OperationCategory::Color,
        OperationKind::Subtract => OperationCategory::Color,
        OperationKind::Checkerboard => OperationCategory::Generator,
        OperationKind::Ghosts => OperationCategory::Composite,
        OperationKind::Ring => OperationCategory::Generator,
        OperationKind::ChromaKey => OperationCategory::Mask,
        OperationKind::HueKey => OperationCategory::Mask,
        OperationKind::Render => OperationCategory::Output,
        OperationKind::CameraSource => OperationCategory::Source,
        OperationKind::ImageSource => OperationCategory::Source,
        OperationKind::Blur => OperationCategory::Color,
        OperationKind::Clamp => OperationCategory::Color,
        OperationKind::Invert => OperationCategory::Color,
        OperationKind::Move => OperationCategory::Color,
        OperationKind::Resize => OperationCategory::Color,
        OperationKind::RgbToHsv => OperationCategory::Color,
        OperationKind::Shuffle => OperationCategory::Color,
        }
    }
}

/// What each operation submits to the catalogue.
#[derive(Clone, Copy, Debug)]
pub struct OperationInfo {
    pub constructor: OperationConstructor,
}

/// A catalogue entry: the operation type with the menu entry and category
/// it declares.
#[derive(Clone, Copy, Debug)]
pub struct RegisteredOperationInfo {
    pub constructor: OperationConstructor,
    pub descriptor: OperationDescriptor,
    pub category: OperationCategory,
}

/// Whether `entry` is the catalogue entry of `kind`.
pub open spec fn is_entry_of(entry: RegisteredOperationInfo, kind: OperationKind) -> bool {
    &&& entry.constructor == kind
    &&& entry.descriptor == descriptor_of(kind)
    &&& entry.category == category_of(kind)
}

/// The whole catalogue: one entry per operation type, in catalogue order.
pub fn initialize_inventory() -> (r: Vec<RegisteredOperationInfo>)
    ensures
        r@.len() == catalogue().len(),
        forall|i: int| 0 <= i < r@.len() ==> is_entry_of(#[trigger] r@[i], catalogue()[i]),
{
    let mut kinds: Vec<OperationKind> = Vec::new();
    kinds.push(OperationKind::Lissajous);
    kinds.push(OperationKind::Sine);
    kinds.push(OperationKind::Square);
    kinds.push(OperationKind::Add);
    kinds.push(OperationKind::Mix);
    kinds.push(OperationKind::Multiply);
    kinds.push(OperationKind::Patch);
    kinds.push(OperationKind::Screen);
    kinds.push(OperationKind::Subtract);
    kinds.push(OperationKind::Checkerboard);
    kinds.push(OperationKind::Ghosts);
    kinds.push(OperationKind::Ring);
    kinds.push(OperationKind::ChromaKey);
    kinds.push(OperationKind::HueKey);
    kinds.push(OperationKind::Render);
    kinds.push(OperationKind::CameraSource);
    kinds.push(OperationKind::ImageSource);
    kinds.push(OperationKind::Blur);
    kinds.push(OperationKind::Clamp);
    kinds.push(OperationKind::Invert);
    kinds.push(OperationKind::Move);
    kinds.push(OperationKind::Resize);
    kinds.push(OperationKind::RgbToHsv);
    kinds.push(OperationKind::Shuffle);
    assert(kinds@ =~= catalogue());
    let mut r: Vec<RegisteredOperationInfo> = Vec::new();
    let mut i: usize = 0;
    while i < kinds.len()
        invariant
            kinds@ == catalogue(),
            i <= kinds@.len(),
            r@.len() == i,
            forall|j: int| 0 <= j < i ==> is_entry_of(#[trigger] r@[j], catalogue()[j]),
        decreases kinds@.len() - i,
    {
        let kind = kinds[i];
        r.push(RegisteredOperationInfo { constructor: kind, descriptor: kind.descriptor(), category: kind.category() });
        i = i + 1;
    }
    r
}

/// All registered operation descriptors, in catalogue order.
pub fn get_all_descriptors() -> (r: Vec<OperationDescriptor>)
    ensures
        r@.len() == catalogue().len(),
        forall|i: int| 0 <= i < r@.len() ==> #[trigger] r@[i] == descriptor_of(catalogue()[i]),
{
    let entries = initialize_inventory();
    let mut r: Vec<OperationDescriptor> = Vec::new();
    let mut i: usize = 0;
    while i < entries.len()
        invariant
            entries@.len() == catalogue().len(),
            forall|j: int| 0 <= j < entries@.len() ==> is_entry_of(#[trigger] entries@[j], catalogue()[j]),
            i <= entries@.len(),
            r@.len() == i,
            forall|j: int| 0 <= j < i ==> #[trigger] r@[j] == descriptor_of(catalogue()[j]),
        decreases entries@.len() - i,
    {
        assert(is_entry_of(entries@[i as int], catalogue()[i as int]));
        r.push(entries[i].descriptor);
        i = i + 1;
    }
    r
}

/// Whether catalogue entry `i` is the first one whose id reads `id`.
pub open spec fn is_first_with_id(id: Seq<char>, i: int) -> bool {
    &&& 0 <= i < catalogue().len()
    &&& descriptor_of(catalogue()[i]).id@ == id
    &&& forall|j: int| 0 <= j < i ==> descriptor_of(catalogue()[j]).id@ != id
}

/// Whether some catalogue entry's id reads `id`.
pub open spec fn has_id(id: Seq<char>) -> bool {
    exists|i: int| 0 <= i < catalogue().len() && descriptor_of(catalogue()[i]).id@ == id
}

/// The operation type registered under `id`, if any.
pub fn get_constructor(id: &str) -> (r: Option<OperationConstructor>)
    ensures
        r is None <==> !has_id(id@),
        r matches Some(k) ==> exists|i: int| is_first_with_id(id@, i) && catalogue()[i] == k,
{
    let entries = initialize_inventory();
    let mut i: usize = 0;
    while i < entries.len()
        invariant
            entries@.len() == catalogue().len(),
            forall|j: int| 0 <= j < entries@.len() ==> is_entry_of(#[trigger] entries@[j], catalogue()[j]),
            i <= entries@.len(),
            forall|j: int| 0 <= j < i ==> descriptor_of(catalogue()[j]).id@ != id@,
        decreases entries@.len() - i,
    {
        assert(is_entry_of(entries@[i as int], catalogue()[i as int]));
        if text_eq(entries[i].descriptor.id, id) {
            assert(is_first_with_id(id@, i as int));
            return Some(entries[i].constructor);
        }
        i = i + 1;
    }
    None
}

/// The operation type to build for `id`, if any.
pub fn create_operation(id: &str) -> (r: Option<OperationConstructor>)
    ensures
        r is None <==> !has_id(id@),
        r matches Some(k) ==> exists|i: int| is_first_with_id(id@, i) && catalogue()[i] == k,
{
    get_constructor(id)
}

/// A number read off an id: its length, first and third characters.
pub open spec fn id_code(s: Seq<char>) -> int {
    s.len() * 1000000 + (s[0] as int) * 1000 + (s[2] as int)
}

/// The number each operation type's id reads as.
pub open spec fn kind_code(kind: OperationKind) -> int {
    match kind {
        OperationKind::Lissajous => 9108115,
        OperationKind::Sine => 4115110,
        OperationKind::Square => 6115117,
        OperationKind::Add => 3097100,
        OperationKind::Mix => 3109120,
        OperationKind::Multiply => 8109108,
        OperationKind::Patch => 5112116,
        OperationKind::Screen => 6115114,
        OperationKind::Subtract => 8115098,
        OperationKind::Checkerboard => 12099101,
        OperationKind::Ghosts => 5103111,
        OperationKind::Ring => 4114110,
        OperationKind::ChromaKey => 9099114,
        OperationKind::HueKey => 7104101,
        OperationKind::Render => 6114110,
        OperationKind::CameraSource => 13099109,
        OperationKind::ImageSource => 12105097,
        OperationKind::Blur => 4098117,
        OperationKind::Clamp => 5099097,
        OperationKind::Invert => 6105118,
        OperationKind::Move => 4109118,
        OperationKind::Resize => 6114115,
        OperationKind::RgbToHsv => 10114098,
        OperationKind::Shuffle => 7115117,
    }
}

proof fn lemma_id_code(kind: OperationKind)
    ensures
        id_code(descriptor_of(kind).id@) == kind_code(kind),
{
    match kind {
        OperationKind::Lissajous => {
            reveal_strlit("lissajous");
        },
        OperationKind::Sine => {
            reveal_strlit("sine");
        },
        OperationKind::Square => {
            reveal_strlit("square");
        },
        OperationKind::Add => {
            reveal_strlit("add");
        },
        OperationKind::Mix => {
            reveal_strlit("mix");
        },
        OperationKind::Multiply => {
            reveal_strlit("multiply");
        },
        OperationKind::Patch => {
            reveal_strlit("patch");
        },
        OperationKind::Screen => {
            reveal_strlit("screen");
        },
        OperationKind::Subtract => {
            reveal_strlit("subtract");
        },
        OperationKind::Checkerboard => {
            reveal_strlit("checkerboard");
        },
        OperationKind::Ghosts => {
            reveal_strlit("ghost");
        },
        OperationKind::Ring => {
            reveal_strlit("ring");
        },
        OperationKind::ChromaKey => {
            reveal_strlit("chromakey");
        },
        OperationKind::HueKey => {
            reveal_strlit("hue_key");
        },
        OperationKind::Render => {
            reveal_strlit("render");
        },
        OperationKind::CameraSource => {
            reveal_strlit("camera_source");
        },
        OperationKind::ImageSource => {
            reveal_strlit("image_source");
        },
        OperationKind::Blur => {
            reveal_strlit("blur");
        },
        OperationKind::Clamp => {
            reveal_strlit("clamp");
        },
        OperationKind::Invert => {
            reveal_strlit("invert");
        },
        OperationKind::Move => {
            reveal_strlit("move");
        },
        OperationKind::Resize => {
            reveal_strlit("resize");
        },
        OperationKind::RgbToHsv => {
            reveal_strlit("rgb_to_hsv");
        },
        OperationKind::Shuffle => {
            reveal_strlit("shuffle");
        },
    }
}

/// No two operation types share an id.
pub proof fn lemma_ids_distinct(a: OperationKind, b: OperationKind)
    requires
        a != b,
    ensures
        descriptor_of(a).id@ != descriptor_of(b).id@,
{
    lemma_id_code(a);
    lemma_id_code(b);
}

/// Every operation type is found under its own id.
pub proof fn lemma_found_by_own_id(kind: OperationKind, i: int)
    requires
        0 <= i < catalogue().len(),
        catalogue()[i] == kind,
    ensures
        is_first_with_id(descriptor_of(kind).id@, i),
        has_id(descriptor_of(kind).id@),
{
    assert forall|j: int| 0 <= j < i implies descriptor_of(catalogue()[j]).id@ != descriptor_of(kind).id@ by {
        assert(catalogue()[j] != kind);
        lemma_ids_distinct(catalogue()[j], kind);
    }
}

} // verus!
verus! {

/// The catalogue's entries agree with what each operation itself declares.
pub proof fn lemma_catalogue_agrees_with_operations()
    ensures
        descriptor_of(OperationKind::Render) == crate::operations::output::Render::spec_descriptor(),
        descriptor_of(OperationKind::Add) == crate::operations::compose::Add::spec_descriptor(),
        descriptor_of(OperationKind::Subtract) == crate::operations::compose::Subtract::spec_descriptor(),
        descriptor_of(OperationKind::Invert) == crate::operations::transform::Invert::spec_descriptor(),
        descriptor_of(OperationKind::Shuffle) == crate::operations::transform::Shuffle::spec_descriptor(),
        descriptor_of(OperationKind::ImageSource) == crate::operations::sources::ImageSource::spec_descriptor(),
        category_of(OperationKind::Render) == OperationCategory::Output,
        category_of(OperationKind::Add) == OperationCategory::Color,
        category_of(OperationKind::Subtract) == OperationCategory::Color,
        category_of(OperationKind::Invert) == OperationCategory::Color,
        category_of(OperationKind::Shuffle) == OperationCategory::Color,
        category_of(OperationKind::ImageSource) == OperationCategory::Source,
{
}

} // verus!

verus! {

/// The catalogue entry of an operation type.
pub open spec fn entry_of(kind: OperationKind) -> RegisteredOperationInfo {
    RegisteredOperationInfo { constructor: kind, descriptor: descriptor_of(kind), category: category_of(kind) }
}

/// `entries` after registering the first `n` catalogue entries in order.
pub open spec fn populated(entries: Seq<RegisteredOperationInfo>, n: nat) -> Seq<RegisteredOperationInfo>
    decreases n,
{
    if n == 0 {
        entries
    } else {
        registered(populated(entries, (n - 1) as nat), entry_of(catalogue()[n - 1]))
    }
}

/// Register every catalogue entry, in catalogue order, with the menu entry
/// and category the catalogue already holds.
pub fn populate_registry(registry: &mut OperationRegistry)
    ensures
        ids_unique(final(registry).entries()),
        final(registry).entries() == populated(old(registry).entries(), catalogue().len()),
{
    let entries = initialize_inventory();
    let mut i: usize = 0;
    while i < entries.len()
        invariant
            entries@.len() == catalogue().len(),
            forall|j: int| 0 <= j < entries@.len() ==> is_entry_of(#[trigger] entries@[j], catalogue()[j]),
            i <= entries@.len(),
            i > 0 ==> ids_unique(registry.entries()),
            registry.entries() == populated(old(registry).entries(), i as nat),
        decreases entries@.len() - i,
    {
        let info = entries[i];
        assert(is_entry_of(entries@[i as int], catalogue()[i as int]));
        assert(info == entry_of(catalogue()[i as int]));
        registry.register_with(info.constructor, info.descriptor, info.category);
        i = i + 1;
    }
    assert(catalogue().len() > 0);
}

/// Populating an empty registry lists exactly the catalogue, in order.
pub proof fn lemma_populate_empty_lists_catalogue(n: nat)
    requires
        n <= catalogue().len(),
    ensures
        populated(Seq::empty(), n).len() == n,
        forall|i: int| 0 <= i < n ==> #[trigger] populated(Seq::empty(), n)[i] == entry_of(catalogue()[i]),
    decreases n,
{
    if n > 0 {
        lemma_populate_empty_lists_catalogue((n - 1) as nat);
        let before = populated(Seq::<RegisteredOperationInfo>::empty(), (n - 1) as nat);
        let kind = catalogue()[n - 1];
        let e = entry_of(kind);
        assert forall|i: int| 0 <= i < before.len() implies before[i].descriptor.id@ != e.descriptor.id@ by {
            assert(before[i] == entry_of(catalogue()[i]));
            assert(catalogue()[i] != kind);
            lemma_ids_distinct(catalogue()[i], kind);
        }
        assert(populated(Seq::empty(), n) == before.push(e));
    }
}

} // verus!
