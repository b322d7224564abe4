//! RING's per-ring colour table: one colour per ring, exactly as many as
//! the ring count, and a 1-based selector naming the ring whose colour is
//! being edited. The drawing itself measures floating-point distances and
//! runs on the host, with whatever colour type it uses for `C`.

use vstd::prelude::*;

verus! {

/// The colour table of a RING: `count` rings, one colour each, and the
/// selected ring (1-based).
pub struct RingPalette<C: Copy> {
    count: usize,
    selected_ring: usize,
    colors: Vec<C>,
}

impl<C: Copy> RingPalette<C> {
    /// There is a colour for exactly every ring, there is at least one
    /// ring, and the selector names one of them.
    #[verifier::type_invariant]
    closed spec fn consistent(self) -> bool {
        &&& self.count >= 1
        &&& self.colors@.len() == self.count
        &&& 1 <= self.selected_ring <= self.count
    }

    /// Number of rings.
    pub closed spec fn spec_count(&self) -> nat {
        self.count as nat
    }

    /// The selected ring, 1-based.
    pub closed spec fn spec_selected(&self) -> nat {
        self.selected_ring as nat
    }

    /// The colour of each ring, outermost first.
    pub closed spec fn spec_colors(&self) -> Seq<C> {
        self.colors@
    }

    /// The palette is consistent: at least one ring, a colour for exactly
    /// every ring, and the selector naming one of them.
    pub open spec fn is_consistent(&self) -> bool {
        &&& self.spec_count() >= 1
        &&& self.spec_colors().len() == self.spec_count()
        &&& 1 <= self.spec_selected() <= self.spec_count()
    }

    /// One ring, coloured `first`, selected.
    pub fn new(first: C) -> (r: Self)
        ensures
            r.spec_count() == 1,
            r.spec_selected() == 1,
            r.spec_colors() == seq![first],
            r.is_consistent(),
    {
        let mut colors: Vec<C> = Vec::new();
        colors.push(first);
        RingPalette { count: 1, selected_ring: 1, colors }
    }

    /// Number of rings.
    pub fn count(&self) -> (r: usize)
        ensures
            r == self.spec_count(),
            r >= 1,
            self.spec_colors().len() == r,
            1 <= self.spec_selected() <= r,
    {
        proof {
            use_type_invariant(self);
        }
        self.count
    }

    /// The selected ring, 1-based.
    pub fn selected_ring(&self) -> (r: usize)
        ensures
            r == self.spec_selected(),
            1 <= r <= self.spec_count(),
    {
        proof {
            use_type_invariant(self);
        }
        self.selected_ring
    }

    /// Change the number of rings to `new_count` (at least one): new rings
    /// take the colour of the last ring, dropped rings lose theirs, and the
    /// selector is pulled back to the last ring if it no longer fits.
    pub fn set_count(&mut self, new_count: usize)
        ensures
            final(self).spec_count() == if new_count >= 1 { new_count as nat } else { 1 },
            final(self).spec_selected() == if old(self).spec_selected() <= final(self).spec_count() {
                old(self).spec_selected()
            } else {
                final(self).spec_count()
            },
            forall|i: int|
                0 <= i < final(self).spec_count() ==> #[trigger] final(self).spec_colors()[i] == if i
                    < old(self).spec_count() {
                    old(self).spec_colors()[i]
                } else {
                    old(self).spec_colors()[old(self).spec_count() - 1]
                },
            final(self).is_consistent(),
    {
        proof {
            use_type_invariant(&*self);
        }
        let n = if new_count >= 1 { new_count } else { 1 };
        let old_count = self.count;
        let fill = self.colors[old_count - 1];
        let mut colors: Vec<C> = Vec::new();
        let mut i: usize = 0;
        while i < n
            invariant
                old_count == old(self).spec_count(),
                old_count >= 1,
                self.colors@ == old(self).spec_colors(),
                self.colors@.len() == old_count,
                fill == old(self).spec_colors()[old_count - 1],
                i <= n,
                colors@.len() == i,
                forall|j: int| 0 <= j < i ==> #[trigger] colors@[j] == if j < old_count {
                    old(self).spec_colors()[j]
                } else {
                    fill
                },
            decreases n - i,
        {
            let c = if i < old_count { self.colors[i] } else { fill };
            colors.push(c);
            i = i + 1;
        }
        let selected = if self.selected_ring <= n { self.selected_ring } else { n };
        *self = RingPalette { count: n, selected_ring: selected, colors };
        proof {
            use_type_invariant(&*self);
        }
    }

    /// Select ring `index` (1-based). An index outside `1..=count` is
    /// refused and changes nothing.
    pub fn select(&mut self, index: i64) -> (accepted: bool)
        ensures
            accepted == (1 <= index <= old(self).spec_count()),
            final(self).spec_count() == old(self).spec_count(),
            final(self).spec_colors() == old(self).spec_colors(),
            final(self).spec_selected() == if accepted { index as nat } else { old(self).spec_selected() },
            final(self).is_consistent(),
    {
        proof {
            use_type_invariant(&*self);
        }
        if index < 1 || index as u64 > self.count as u64 {
            return false;
        }
        self.selected_ring = index as usize;
        proof {
            use_type_invariant(&*self);
        }
        true
    }

    /// The selected ring's colour.
    pub fn color(&self) -> (r: C)
        ensures
            r == self.spec_colors()[self.spec_selected() - 1],
    {
        proof {
            use_type_invariant(self);
        }
        self.colors[self.selected_ring - 1]
    }

    /// Give the selected ring colour `c`; every other ring keeps its own.
    pub fn set_color(&mut self, c: C)
        ensures
            final(self).spec_count() == old(self).spec_count(),
            final(self).spec_selected() == old(self).spec_selected(),
            final(self).spec_colors() == old(self).spec_colors().update(old(self).spec_selected() - 1, c),
            final(self).is_consistent(),
    {
        proof {
            use_type_invariant(&*self);
        }
        let k = self.selected_ring - 1;
        let mut colors: Vec<C> = Vec::new();
        let mut i: usize = 0;
        while i < self.count
            invariant
                self.colors@ == old(self).spec_colors(),
                self.count == old(self).spec_count(),
                self.colors@.len() == self.count,
                k == old(self).spec_selected() - 1,
                k < self.count,
                i <= self.count,
                colors@.len() == i,
                forall|j: int| 0 <= j < i ==> #[trigger] colors@[j] == old(self).spec_colors().update(k as int, c)[j],
            decreases self.count - i,
        {
            let v = if i == k { c } else { self.colors[i] };
            colors.push(v);
            i = i + 1;
        }
        assert(colors@ =~= old(self).spec_colors().update(k as int, c));
        *self = RingPalette { count: self.count, selected_ring: self.selected_ring, colors };
        proof {
            use_type_invariant(&*self);
        }
    }

    /// The colour of ring `ring_number` (1-based).
    pub fn ring_color(&self, ring_number: usize) -> (r: C)
        requires
            1 <= ring_number <= self.spec_count(),
        ensures
            r == self.spec_colors()[ring_number - 1],
    {
        proof {
            use_type_invariant(self);
        }
        self.colors[ring_number - 1]
    }
}

} // verus!
