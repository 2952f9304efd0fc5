//! Generational handles: stable references to registry entries.

use vstd::prelude::*;

verus! {

/// A generational reference to an entry of a registry.
///
/// The slot says where the entry is stored, the generation says during which
/// period of the registry's life it was stored there.
#[derive(Clone, Copy, Debug, PartialEq, Eq, Structural, Hash)]
pub struct Handle {
    pub slot: usize,
    pub generation: u64,
}

impl Handle {
    /// A handle made of the given slot and generation.
    pub fn new(slot: usize, generation: u64) -> (h: Handle)
        ensures
            h.slot == slot,
            h.generation == generation,
    {
        Handle { slot, generation }
    }
}

} // verus!
