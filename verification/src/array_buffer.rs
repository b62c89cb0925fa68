//! Allocator bindings: the memory-management callbacks the engine uses for
//! large buffers.

use vstd::prelude::*;

verus! {

/// A passive configuration object supplying the engine's array-buffer
/// allocation callbacks. It carries no logic of its own and is consumed
/// exactly once, by the creation parameters of a single isolate; move
/// semantics enforce the single use.
pub struct Allocator {
    default: bool,
}

impl Allocator {
    /// Whether this allocator uses the engine's default allocation strategy.
    pub closed spec fn is_default(&self) -> bool {
        self.default
    }

    /// Build the engine's default array-buffer allocator.
    pub fn new_default_allocator() -> (a: Allocator)
        ensures
            a.is_default(),
    {
        Allocator { default: true }
    }
}

} // verus!
