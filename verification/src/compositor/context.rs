//! What an operation is told when it runs, and lookups into its inputs.

use vstd::prelude::*;
use crate::compositor::bbox::Rect;
use crate::compositor::input::Input;
use crate::compositor::value::Value;

verus! {

/// The graph's current render settings.
#[derive(Clone, Copy, Debug)]
pub struct Meta {
    pub width: u32,
    pub height: u32,
}

impl Default for Meta {
    fn default() -> (r: Self)
        ensures
            r.width == 0,
            r.height == 0,
    {
        Meta { width: 0, height: 0 }
    }
}

/// What an operation is told when it runs: the render settings and the
/// box each wired input reported for its own content.
#[derive(Debug)]
pub struct Context {
    pub meta: Meta,
    pub input_bboxes: Vec<(Input, Rect)>,
}

impl Default for Context {
    fn default() -> (r: Self)
        ensures
            r.meta.width == 0,
            r.meta.height == 0,
            r.input_bboxes@.len() == 0,
    {
        Context { meta: Meta::default(), input_bboxes: Vec::new() }
    }
}

/// Whether entry `i` is the first entry of `entries` for slot `kind`.
pub open spec fn is_first_of<T>(entries: Seq<(Input, T)>, kind: Input, i: int) -> bool {
    &&& 0 <= i < entries.len()
    &&& entries[i].0 == kind
    &&& forall|j: int| 0 <= j < i ==> entries[j].0 != kind
}

/// Whether `entries` has an entry for slot `kind`.
pub open spec fn has_entry<T>(entries: Seq<(Input, T)>, kind: Input) -> bool {
    exists|i: int| 0 <= i < entries.len() && entries[i].0 == kind
}

/// Index of the first entry for `kind`, if there is one.
fn first_index<T>(entries: &[(Input, T)], kind: Input) -> (r: Option<usize>)
    ensures
        r is None <==> !has_entry(entries@, kind),
        r matches Some(i) ==> is_first_of(entries@, kind, i as int),
{
    let mut i: usize = 0;
    while i < entries.len()
        invariant
            i <= entries@.len(),
            forall|j: int| 0 <= j < i ==> entries@[j].0 != kind,
        decreases entries@.len() - i,
    {
        if entries[i].0 == kind {
            return Some(i);
        }
        i = i + 1;
    }
    None
}

/// The value wired into slot `kind`: the first entry for it, if any.
pub open spec fn wired(inputs: Seq<(Input, Value)>, kind: Input) -> Option<Value> {
    if has_entry(inputs, kind) {
        Some(inputs[choose|i: int| is_first_of(inputs, kind, i)].1)
    } else {
        None
    }
}

/// The value wired into slot `kind`: the first entry for it, if any.
pub fn find_input<'a>(inputs: &'a [(Input, Value)], kind: Input) -> (r: Option<&'a Value>)
    ensures
        r is None <==> !has_entry(inputs@, kind),
        r matches Some(v) ==> exists|i: int| is_first_of(inputs@, kind, i) && *v == inputs@[i].1,
        match wired(inputs@, kind) {
            Some(v) => r matches Some(w) && *w == v,
            None => r is None,
        },
{
    match first_index(inputs, kind) {
        Some(i) => {
            proof {
                let k = choose|k: int| is_first_of(inputs@, kind, k);
                lemma_first_unique(inputs@, kind, i as int, k);
            }
            Some(&inputs[i].1)
        },
        None => None,
    }
}

/// The box reported for slot `kind`: the first entry for it, if any.
pub fn find_bbox(bboxes: &[(Input, Rect)], kind: Input) -> (r: Option<Rect>)
    ensures
        r is None <==> !has_entry(bboxes@, kind),
        r matches Some(b) ==> exists|i: int| is_first_of(bboxes@, kind, i) && b == bboxes@[i].1,
{
    match first_index(bboxes, kind) {
        Some(i) => Some(bboxes[i].1),
        None => None,
    }
}

/// There is at most one first entry for a slot.
pub proof fn lemma_first_unique<T>(entries: Seq<(Input, T)>, kind: Input, i: int, j: int)
    requires
        is_first_of(entries, kind, i),
        is_first_of(entries, kind, j),
    ensures
        i == j,
{
}

/// The box reported for slot `kind`, or the whole `width` by `height`
/// frame when none was reported.
pub open spec fn reported_or_full(bboxes: Seq<(Input, Rect)>, kind: Input, width: int, height: int) -> Rect {
    if has_entry(bboxes, kind) {
        bboxes[choose|i: int| is_first_of(bboxes, kind, i)].1
    } else {
        Rect::spec_full(width, height)
    }
}

/// The box reported for slot `kind`, or the whole frame when none was.
pub fn reported_box(bboxes: &[(Input, Rect)], kind: Input, width: u32, height: u32) -> (r: Rect)
    requires
        width <= i32::MAX,
        height <= i32::MAX,
    ensures
        r == reported_or_full(bboxes@, kind, width as int, height as int),
{
    match find_bbox(bboxes, kind) {
        Some(b) => {
            proof {
                let i = choose|i: int| is_first_of(bboxes@, kind, i) && b == bboxes@[i].1;
                let k = choose|k: int| is_first_of(bboxes@, kind, k);
                lemma_first_unique(bboxes@, kind, i, k);
            }
            b
        },
        None => Rect::full(width, height),
    }
}

} // verus!
