//! GHOST's frame history: the cutouts of the last frames, oldest first,
//! trimmed to exactly what the deepest ghost needs. The cutouts themselves
//! are floating-point pixels kept by the host, with whatever buffer type it
//! uses for `T`.

use vstd::prelude::*;
use std::collections::VecDeque;

verus! {

/// How many frames GHOST keeps: the deepest ghost reaches
/// `ghost_count * delay` frames back, plus the current frame, saturating
/// at the largest `u64`.
pub open spec fn history_capacity(ghost_count: u64, delay: u64) -> int {
    let product = ghost_count * delay;
    let product = if product > u64::MAX { u64::MAX as int } else { product };
    if product + 1 > u64::MAX { u64::MAX as int } else { product + 1 }
}

/// The most frames GHOST keeps; see `history_capacity`.
pub fn capacity(ghost_count: u64, delay: u64) -> (r: u64)
    ensures
        r == history_capacity(ghost_count, delay),
        r >= 1,
{
    let product = match ghost_count.checked_mul(delay) {
        Some(p) => p,
        None => u64::MAX,
    };
    match product.checked_add(1) {
        Some(c) => c,
        None => u64::MAX,
    }
}

/// Which kept frame is `frames_back` frames before the newest of `len`
/// kept frames, clamped to the oldest one kept.
pub open spec fn delayed_index(len: int, frames_back: int) -> int {
    if frames_back >= len - 1 { 0 } else { len - 1 - frames_back }
}

/// GHOST's history of cutouts, oldest first.
pub struct FrameHistory<T> {
    frames: VecDeque<T>,
}

impl<T: Clone> FrameHistory<T> {
    /// The cutouts kept, oldest first.
    pub closed spec fn kept(&self) -> Seq<T> {
        self.frames@
    }

    /// An empty history.
    pub fn new() -> (r: Self)
        ensures
            r.kept().len() == 0,
    {
        FrameHistory { frames: VecDeque::new() }
    }

    /// Add this frame's cutout, then drop the oldest frames until no more
    /// than `capacity(ghost_count, delay)` are kept: the result is the
    /// newest frames, ending with this one.
    pub fn record(&mut self, cutout: T, ghost_count: u64, delay: u64)
        ensures
            ({
                let all = old(self).kept().push(cutout);
                let cap = history_capacity(ghost_count, delay);
                let keep = if all.len() <= cap { all.len() as int } else { cap };
                final(self).kept() == all.subrange(all.len() - keep, all.len() as int)
            }),
    {
        let ghost all = self.frames@.push(cutout);
        self.frames.push_back(cutout);
        let cap = capacity(ghost_count, delay);
        let ghost keep = if all.len() <= cap { all.len() as int } else { cap as int };
        while self.frames.len() as u64 > cap
            invariant
                self.frames@ == all.subrange(all.len() - self.frames@.len(), all.len() as int),
                self.frames@.len() >= keep,
                self.frames@.len() <= all.len(),
                keep == (if all.len() <= cap { all.len() as int } else { cap as int }),
                cap >= 1,
            decreases self.frames@.len(),
        {
            let ghost before = self.frames@;
            assert(before.len() > 0);
            let popped = self.frames.pop_front();
            assert(popped is Some);
            assert(self.frames@ == before.subrange(1, before.len() as int));
            assert(self.frames@ =~= all.subrange(all.len() - self.frames@.len(), all.len() as int));
        }
        assert(self.frames@.len() == keep);
    }

    /// The cutout from `frames_back` frames ago, clamped to the oldest
    /// frame kept.
    pub fn delayed(&self, frames_back: u64) -> (r: T)
        requires
            self.kept().len() > 0,
        ensures
            cloned(self.kept()[delayed_index(self.kept().len() as int, frames_back as int)], r),
    {
        let last = self.frames.len() - 1;
        let index = if frames_back as u128 >= last as u128 { 0 } else { last - frames_back as usize };
        self.frames[index].clone()
    }
}

/// Right after a frame is recorded it is the newest one kept, and at most
/// `capacity` frames are kept.
pub proof fn lemma_record_keeps_newest<T>(before: Seq<T>, cutout: T, after: Seq<T>, ghost_count: u64, delay: u64)
    requires
        ({
            let all = before.push(cutout);
            let cap = history_capacity(ghost_count, delay);
            let keep = if all.len() <= cap { all.len() as int } else { cap };
            after == all.subrange(all.len() - keep, all.len() as int)
        }),
    ensures
        after.len() >= 1,
        after.len() <= history_capacity(ghost_count, delay),
        after[after.len() - 1] == cutout,
        after.len() == if before.len() + 1 <= history_capacity(ghost_count, delay) {
            before.len() + 1int
        } else {
            history_capacity(ghost_count, delay)
        },
{
    assert(history_capacity(ghost_count, delay) >= 1);
}

} // verus!
