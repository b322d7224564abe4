//! The registry the graph creates operations from: one entry per id.

use vstd::prelude::*;
use crate::compositor::OperationDescriptor;
use crate::compositor::metadata::OperationCategory;
use crate::operations::inventory::{OperationConstructor, RegisteredOperationInfo};
use crate::text::text_eq;

verus! {

/// The operations the graph can create, one entry per id.
pub struct OperationRegistry {
    entries: Vec<RegisteredOperationInfo>,
}

/// The entries after registering `entry`: an entry under the same id is
/// replaced in place, otherwise `entry` is appended.
pub open spec fn registered(entries: Seq<RegisteredOperationInfo>, entry: RegisteredOperationInfo) -> Seq<
    RegisteredOperationInfo,
> {
    if exists|i: int| 0 <= i < entries.len() && entries[i].descriptor.id@ == entry.descriptor.id@ {
        let i = choose|i: int| 0 <= i < entries.len() && entries[i].descriptor.id@ == entry.descriptor.id@;
        entries.update(i, entry)
    } else {
        entries.push(entry)
    }
}

/// Whether no two entries share an id.
pub open spec fn ids_unique(entries: Seq<RegisteredOperationInfo>) -> bool {
    forall|i: int, j: int|
        0 <= i < entries.len() && 0 <= j < entries.len() && i != j ==> entries[i].descriptor.id@
            != entries[j].descriptor.id@
}

impl OperationRegistry {
    /// No two entries of a registry share an id.
    #[verifier::type_invariant]
    closed spec fn ids_are_unique(self) -> bool {
        ids_unique(self.entries@)
    }

    /// The entries, in registration order.
    pub closed spec fn entries(&self) -> Seq<RegisteredOperationInfo> {
        self.entries@
    }

    /// An empty registry.
    pub fn new() -> (r: Self)
        ensures
            r.entries().len() == 0,
    {
        OperationRegistry { entries: Vec::new() }
    }

    /// Register an operation type with the menu entry and category it
    /// declares: an entry under the same id is replaced in place,
    /// otherwise the entry is appended. Ids stay unique.
    pub fn register_with(
        &mut self,
        constructor: OperationConstructor,
        descriptor: OperationDescriptor,
        category: OperationCategory,
    )
        ensures
            final(self).entries() == registered(
                old(self).entries(),
                RegisteredOperationInfo { constructor, descriptor, category },
            ),
            ids_unique(final(self).entries()),
    {
        proof {
            use_type_invariant(&*self);
        }
        let ghost olds = self.entries@;
        assert(olds == old(self).entries());
        let mut entries: Vec<RegisteredOperationInfo> = Vec::new();
        std::mem::swap(&mut entries, &mut self.entries);
        let entry = RegisteredOperationInfo { constructor, descriptor, category };
        let mut i: usize = 0;
        let mut found = false;
        while i < entries.len()
            invariant_except_break
                !found,
                i <= entries@.len(),
                entries@ == olds,
                ids_unique(olds),
                forall|j: int| 0 <= j < i ==> entries@[j].descriptor.id@ != descriptor.id@,
            ensures
                i <= entries@.len(),
                entries@ == olds,
                ids_unique(olds),
                found ==> i < entries@.len() && entries@[i as int].descriptor.id@ == descriptor.id@,
                !found ==> forall|j: int| 0 <= j < entries@.len() ==> entries@[j].descriptor.id@ != descriptor.id@,
            decreases entries@.len() - i,
        {
            if text_eq(entries[i].descriptor.id, descriptor.id) {
                found = true;
                break;
            }
            i = i + 1;
        }
        if found {
            proof {
                assert(olds[i as int].descriptor.id@ == entry.descriptor.id@);
                assert(exists|k: int| 0 <= k < olds.len() && olds[k].descriptor.id@ == entry.descriptor.id@);
                let k = choose|k: int| 0 <= k < olds.len() && olds[k].descriptor.id@ == entry.descriptor.id@;
                assert(k == i as int);
                assert(registered(olds, entry) == olds.update(i as int, entry));
            }
            entries.set(i, entry);
            proof {
                assert(entries@ == olds.update(i as int, entry));
                assert forall|p: int, q: int|
                    0 <= p < entries@.len() && 0 <= q < entries@.len() && p != q implies
                    entries@[p].descriptor.id@ != entries@[q].descriptor.id@ by {
                    if p != i && q != i {
                        assert(olds[p].descriptor.id@ != olds[q].descriptor.id@);
                    } else if p == i {
                        assert(olds[i as int].descriptor.id@ != olds[q].descriptor.id@);
                    } else {
                        assert(olds[p].descriptor.id@ != olds[i as int].descriptor.id@);
                    }
                }
            }
        } else {
            entries.push(entry);
        }
        self.entries = entries;
    }

    /// Register every operation of the catalogue.
    pub fn register_from_inventory(&mut self)
        ensures
            ids_unique(final(self).entries()),
            final(self).entries() == crate::operations::inventory::populated(
                old(self).entries(),
                crate::operations::inventory::catalogue().len(),
            ),
    {
        crate::operations::inventory::populate_registry(self);
    }
}

} // verus!
