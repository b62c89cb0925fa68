//! Exclusive access to an isolate.

use vstd::prelude::*;
use core::marker::PhantomData;
use crate::handle_scope::ScopeParent;
use crate::isolate::Isolate;

verus! {

/// A scoped token proving that the holder has exclusive rights to mutate one
/// isolate.
///
/// The engine's internal state is not thread-safe, so all access to an
/// isolate must be serialized. A `Locker` holds the isolate's unique mutable
/// borrow for as long as it lives: while one `Locker` on an isolate is alive
/// no second one can be acquired and the isolate cannot be touched past it,
/// and dropping the `Locker` (on any exit path) releases the isolate again.
/// It is the outermost scope-like region: every handle scope nests inside a
/// `Locker`.
pub struct Locker<'a> {
    isolate: PhantomData<&'a ()>,
}

impl<'a> Locker<'a> {
    /// Acquire exclusive access to `isolate` for the lifetime of the returned
    /// guard.
    pub fn new<'v>(isolate: &'a mut Isolate<'v>) -> (l: Locker<'a>)
        ensures
            l.depth() == 0,
            *final(isolate) == *old(isolate),
    {
        Locker { isolate: PhantomData }
    }
}

impl<'a> ScopeParent for Locker<'a> {
    /// A locker is the outermost region: scopes under it start at depth one.
    open spec fn depth(&self) -> int {
        0
    }

    fn scope_depth(&self) -> (d: usize) {
        0
    }
}

} // verus!
