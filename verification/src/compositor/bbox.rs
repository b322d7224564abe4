//! Axis-aligned pixel boxes: the region of a frame an operation's output
//! can differ from its default in, and the region it needs to compute.
//!
//! A box covers the pixels `x0 <= x < x1`, `y0 <= y < y1`; a box with no
//! such pixel is empty, and every empty result is reported as the one
//! canonical `Rect::empty()`.

use vstd::prelude::*;

verus! {

/// A half-open pixel box `[x0, x1) x [y0, y1)`.
#[derive(Clone, Copy, Debug, PartialEq, Eq, Structural)]
pub struct Rect {
    pub x0: i32,
    pub y0: i32,
    pub x1: i32,
    pub y1: i32,
}

impl Rect {
    /// Whether the box covers pixel `(x, y)`.
    pub open spec fn covers(self, x: int, y: int) -> bool {
        &&& self.x0 <= x < self.x1
        &&& self.y0 <= y < self.y1
    }

    /// Whether the box covers no pixel at all.
    pub open spec fn spec_is_empty(self) -> bool {
        self.x1 <= self.x0 || self.y1 <= self.y0
    }

    /// The canonical empty box.
    pub open spec fn spec_empty() -> Rect {
        Rect { x0: 0, y0: 0, x1: 0, y1: 0 }
    }

    /// The box of a whole `width` by `height` frame.
    pub open spec fn spec_full(width: int, height: int) -> Rect {
        Rect { x0: 0, y0: 0, x1: width as i32, y1: height as i32 }
    }

    /// The overlap of two boxes, or the empty box where they share no pixel.
    pub open spec fn spec_intersect(self, other: Rect) -> Rect {
        let r = Rect {
            x0: if self.x0 >= other.x0 { self.x0 } else { other.x0 },
            y0: if self.y0 >= other.y0 { self.y0 } else { other.y0 },
            x1: if self.x1 <= other.x1 { self.x1 } else { other.x1 },
            y1: if self.y1 <= other.y1 { self.y1 } else { other.y1 },
        };
        if r.spec_is_empty() { Rect::spec_empty() } else { r }
    }

    /// The smallest box covering both boxes; an empty operand adds nothing.
    pub open spec fn spec_union(self, other: Rect) -> Rect {
        if self.spec_is_empty() {
            if other.spec_is_empty() { Rect::spec_empty() } else { other }
        } else if other.spec_is_empty() {
            self
        } else {
            Rect {
                x0: if self.x0 <= other.x0 { self.x0 } else { other.x0 },
                y0: if self.y0 <= other.y0 { self.y0 } else { other.y0 },
                x1: if self.x1 >= other.x1 { self.x1 } else { other.x1 },
                y1: if self.y1 >= other.y1 { self.y1 } else { other.y1 },
            }
        }
    }

    /// The box pushed out by `by` pixels on every side.
    pub open spec fn spec_grow(self, by: int) -> Rect {
        Rect {
            x0: (self.x0 - by) as i32,
            y0: (self.y0 - by) as i32,
            x1: (self.x1 + by) as i32,
            y1: (self.y1 + by) as i32,
        }
    }

    /// Whether growing the box by `by` stays within `i32`.
    pub open spec fn can_grow(self, by: int) -> bool {
        &&& i32::MIN <= self.x0 - by <= i32::MAX
        &&& i32::MIN <= self.y0 - by <= i32::MAX
        &&& i32::MIN <= self.x1 + by <= i32::MAX
        &&& i32::MIN <= self.y1 + by <= i32::MAX
    }

    /// Number of pixels the box covers.
    pub open spec fn spec_area(self) -> int {
        if self.spec_is_empty() { 0 } else { (self.x1 - self.x0) * (self.y1 - self.y0) }
    }

    /// The canonical empty box.
    pub fn empty() -> (r: Rect)
        ensures
            r == Rect::spec_empty(),
            r.spec_is_empty(),
    {
        Rect { x0: 0, y0: 0, x1: 0, y1: 0 }
    }

    /// The box of a whole `width` by `height` frame.
    pub fn full(width: u32, height: u32) -> (r: Rect)
        requires
            width <= i32::MAX,
            height <= i32::MAX,
        ensures
            r == Rect::spec_full(width as int, height as int),
            r.x0 == 0 && r.y0 == 0 && r.x1 == width && r.y1 == height,
    {
        Rect { x0: 0, y0: 0, x1: width as i32, y1: height as i32 }
    }

    /// Whether the box covers no pixel at all.
    pub fn is_empty(&self) -> (r: bool)
        ensures
            r == self.spec_is_empty(),
    {
        self.x1 <= self.x0 || self.y1 <= self.y0
    }

    /// The overlap of two boxes, or `Rect::empty()` where they share no pixel.
    pub fn intersect(&self, other: &Rect) -> (r: Rect)
        ensures
            r == self.spec_intersect(*other),
    {
        let r = Rect {
            x0: if self.x0 >= other.x0 { self.x0 } else { other.x0 },
            y0: if self.y0 >= other.y0 { self.y0 } else { other.y0 },
            x1: if self.x1 <= other.x1 { self.x1 } else { other.x1 },
            y1: if self.y1 <= other.y1 { self.y1 } else { other.y1 },
        };
        if r.is_empty() { Rect::empty() } else { r }
    }

    /// The smallest box covering both boxes; an empty operand adds nothing.
    pub fn union(&self, other: &Rect) -> (r: Rect)
        ensures
            r == self.spec_union(*other),
    {
        if self.is_empty() {
            if other.is_empty() { Rect::empty() } else { *other }
        } else if other.is_empty() {
            *self
        } else {
            Rect {
                x0: if self.x0 <= other.x0 { self.x0 } else { other.x0 },
                y0: if self.y0 <= other.y0 { self.y0 } else { other.y0 },
                x1: if self.x1 >= other.x1 { self.x1 } else { other.x1 },
                y1: if self.y1 >= other.y1 { self.y1 } else { other.y1 },
            }
        }
    }

    /// The box pushed out by `by` pixels on every side.
    pub fn grow(&self, by: i32) -> (r: Rect)
        requires
            self.can_grow(by as int),
        ensures
            r == self.spec_grow(by as int),
            r.x0 == self.x0 - by && r.y0 == self.y0 - by,
            r.x1 == self.x1 + by && r.y1 == self.y1 + by,
    {
        Rect { x0: self.x0 - by, y0: self.y0 - by, x1: self.x1 + by, y1: self.y1 + by }
    }

    /// Number of pixels the box covers.
    pub fn area(&self) -> (r: u64)
        ensures
            r == self.spec_area(),
    {
        if self.is_empty() {
            0
        } else {
            let w = (self.x1 as i64 - self.x0 as i64) as u64;
            let h = (self.y1 as i64 - self.y0 as i64) as u64;
            assert(w * h <= u64::MAX) by (nonlinear_arith)
                requires w < 0x1_0000_0000, h < 0x1_0000_0000;
            w * h
        }
    }
}

/// An empty box covers no pixel, and a non-empty one covers its corner
/// `(x0, y0)`.
pub proof fn lemma_empty_covers_nothing(r: Rect)
    ensures
        r.spec_is_empty() <==> (forall|x: int, y: int| !r.covers(x, y)),
{
    if !r.spec_is_empty() {
        assert(r.covers(r.x0 as int, r.y0 as int));
    }
}

/// A pixel lies in the overlap of two boxes exactly when it lies in both.
pub proof fn lemma_intersect_covers(a: Rect, b: Rect, x: int, y: int)
    ensures
        a.spec_intersect(b).covers(x, y) <==> (a.covers(x, y) && b.covers(x, y)),
{
}

/// Overlap does not depend on the order of its operands.
pub proof fn lemma_intersect_commutes(a: Rect, b: Rect)
    ensures
        a.spec_intersect(b) == b.spec_intersect(a),
{
}

/// Overlap is associative.
pub proof fn lemma_intersect_associates(a: Rect, b: Rect, c: Rect)
    ensures
        a.spec_intersect(b).spec_intersect(c) == a.spec_intersect(b.spec_intersect(c)),
{
}

/// Overlapping a box with itself gives the box back, or the canonical
/// empty box if it covered nothing.
pub proof fn lemma_intersect_idempotent(a: Rect)
    ensures
        a.spec_intersect(a) == (if a.spec_is_empty() { Rect::spec_empty() } else { a }),
{
}

/// The union covers every pixel of either operand.
pub proof fn lemma_union_covers(a: Rect, b: Rect, x: int, y: int)
    ensures
        a.covers(x, y) ==> a.spec_union(b).covers(x, y),
        b.covers(x, y) ==> a.spec_union(b).covers(x, y),
{
}

/// Union does not depend on the order of its operands.
pub proof fn lemma_union_commutes(a: Rect, b: Rect)
    ensures
        a.spec_union(b) == b.spec_union(a),
{
}

/// The empty box is the identity of union.
pub proof fn lemma_union_empty_identity(a: Rect)
    ensures
        a.spec_union(Rect::spec_empty()) == (if a.spec_is_empty() { Rect::spec_empty() } else { a }),
{
}

/// Overlap never reports a negative extent: it is either the canonical
/// empty box or a box that covers at least one pixel.
pub proof fn lemma_intersect_normalized(a: Rect, b: Rect)
    ensures
        a.spec_intersect(b) == Rect::spec_empty() || !a.spec_intersect(b).spec_is_empty(),
{
}

/// Clipping a box to a frame keeps it inside the frame.
pub proof fn lemma_clip_within_frame(a: Rect, width: int, height: int, x: int, y: int)
    requires
        0 <= width <= i32::MAX,
        0 <= height <= i32::MAX,
    ensures
        a.spec_intersect(Rect::spec_full(width, height)).covers(x, y) ==> (0 <= x < width && 0 <= y < height),
{
}

/// A box never covers more pixels than either box it was clipped from.
pub proof fn lemma_intersect_area_bounded(a: Rect, b: Rect)
    ensures
        a.spec_intersect(b).spec_area() <= a.spec_area(),
        a.spec_intersect(b).spec_area() <= b.spec_area(),
{
    let r = a.spec_intersect(b);
    if !r.spec_is_empty() {
        assert((r.x1 - r.x0) * (r.y1 - r.y0) <= (a.x1 - a.x0) * (a.y1 - a.y0)) by (nonlinear_arith)
            requires
                0 < r.x1 - r.x0 <= a.x1 - a.x0,
                0 < r.y1 - r.y0 <= a.y1 - a.y0;
        assert((r.x1 - r.x0) * (r.y1 - r.y0) <= (b.x1 - b.x0) * (b.y1 - b.y0)) by (nonlinear_arith)
            requires
                0 < r.x1 - r.x0 <= b.x1 - b.x0,
                0 < r.y1 - r.y0 <= b.y1 - b.y0;
    }
}

} // verus!
