//! Execution contexts: independent instances of the engine's runtime.

use vstd::prelude::*;
use core::marker::PhantomData;
use crate::array_buffer::Allocator;
use crate::v8::V8;

verus! {

/// Configuration for a new isolate. The engine requires at least an
/// array-buffer allocator before it can build a runtime instance.
pub struct CreateParams {
    array_buffer_allocator: Option<Allocator>,
}

impl CreateParams {
    /// Whether an array-buffer allocator has been supplied.
    pub closed spec fn has_allocator(&self) -> bool {
        self.array_buffer_allocator is Some
    }

    /// Whether the supplied allocator is the engine's default one.
    pub closed spec fn allocator_is_default(&self) -> bool {
        self.array_buffer_allocator matches Some(a) && a.is_default()
    }

    /// Supply the array-buffer allocator, consuming it.
    pub fn set_array_buffer_allocator(&mut self, allocator: Allocator)
        ensures
            final(self).has_allocator(),
            final(self).allocator_is_default() == allocator.is_default(),
    {
        self.array_buffer_allocator = Some(allocator);
    }
}

/// One independent instance of the engine's runtime and heap.
///
/// An isolate is mutable only under a [`crate::locker::Locker`]. The lifetime
/// `'v` pins the process-wide engine state: while any isolate is alive the
/// engine cannot be disposed or shut down, which is exactly the order the
/// engine demands.
pub struct Isolate<'v> {
    allocator: Allocator,
    engine: PhantomData<&'v ()>,
}

impl<'v> Isolate<'v> {
    /// Whether the isolate runs on the engine's default allocation strategy.
    pub closed spec fn default_allocator(&self) -> bool {
        self.allocator.is_default()
    }

    /// Empty configuration for a new isolate; the allocator is still to be
    /// supplied.
    pub fn create_params() -> (p: CreateParams)
        ensures
            !p.has_allocator(),
    {
        CreateParams { array_buffer_allocator: None }
    }

    /// Build a runtime instance. The engine must be up (platform installed,
    /// engine initialized, nothing torn down) and the configuration complete;
    /// the allocator moves into the isolate and serves it alone.
    pub fn new(engine: &'v V8, params: CreateParams) -> (iso: Isolate<'v>)
        requires
            engine.ready(),
            params.has_allocator(),
        ensures
            iso.default_allocator() == params.allocator_is_default(),
    {
        let allocator = params.array_buffer_allocator.unwrap();
        Isolate { allocator, engine: PhantomData }
    }
}

} // verus!
