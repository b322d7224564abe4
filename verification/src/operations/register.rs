//! Filling the graph's registry from the operation catalogue.

use vstd::prelude::*;
use crate::compositor::OperationRegistry;
use crate::compositor::registry::ids_unique;
use crate::operations::inventory::{catalogue, populated};

verus! {

/// Register all operations of the catalogue into the registry.
pub fn register_operations(registry: &mut OperationRegistry)
    ensures
        ids_unique(final(registry).entries()),
        final(registry).entries() == populated(old(registry).entries(), catalogue().len()),
{
    registry.register_from_inventory();
}

} // verus!
