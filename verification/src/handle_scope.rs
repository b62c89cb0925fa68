//! Nestable handle-collection regions.

use vstd::prelude::*;
use core::marker::PhantomData;

verus! {

/// A region that local handles can be minted in: a locker (the outermost
/// region) or an enclosing handle scope.
pub trait ScopeParent {
    /// How many handle scopes enclose this region, itself included.
    spec fn depth(&self) -> int;

    /// The region's depth as a machine integer.
    fn scope_depth(&self) -> (d: usize)
        ensures
            d as int == self.depth(),
    ;
}

/// One activation of a handle-collection region.
///
/// Every local handle minted while the scope is active is invalidated when
/// the scope exits. Entering a scope takes the parent region's unique mutable
/// borrow for the new scope's lifetime, so regions form a stack: while an
/// inner scope is alive its parent cannot mint handles or enter a second
/// child, an inner scope can never outlive its parent, and a scope's exit
/// (its drop, on any exit path) strictly follows the exit of every scope
/// nested in it. Handles minted from the inner scope die with it; handles
/// minted from the parent before entry stay usable throughout.
pub struct HandleScope<'a> {
    depth: usize,
    parent: PhantomData<&'a ()>,
}

impl<'a> HandleScope<'a> {
    /// Enter a fresh scope nested in `parent`, one level deeper.
    ///
    /// Entry itself cannot fail: it is a stack push, and nesting depth has no
    /// fixed bound short of the machine's. The parent region is left exactly
    /// as it was once the new scope exits.
    pub fn enter<P: ScopeParent>(parent: &'a mut P) -> (s: HandleScope<'a>)
        requires
            old(parent).depth() < usize::MAX as int,
        ensures
            s.depth() == old(parent).depth() + 1,
            *final(parent) == *old(parent),
    {
        let d = parent.scope_depth();
        HandleScope { depth: d + 1, parent: PhantomData }
    }
}

impl<'a> ScopeParent for HandleScope<'a> {
    /// The scope's ordinal depth: how many regions enclose it, itself
    /// included.
    closed spec fn depth(&self) -> int {
        self.depth as int
    }

    fn scope_depth(&self) -> (d: usize) {
        self.depth
    }
}

} // verus!
