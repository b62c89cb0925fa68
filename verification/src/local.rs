//! Scope-bound, non-owning handles to engine-owned values.

use vstd::prelude::*;
use core::marker::PhantomData;

verus! {

/// A non-owning reference to a single engine-owned value of semantic type `T`.
///
/// The engine hands the host a raw address; a `Local` wraps that address and
/// tags it with the lifetime `'sc` of the scope that minted it, so the handle
/// cannot be stored, returned, or read after that scope ends. The engine
/// signals "no value" (a failed compilation, a failed allocation) with the
/// null address, which never becomes a handle.
pub struct Local<'sc, T> {
    address: usize,
    scope: PhantomData<&'sc ()>,
    ty: PhantomData<T>,
}

impl<'sc, T> Local<'sc, T> {
    /// The raw engine address this handle wraps.
    pub closed spec fn addr(&self) -> usize {
        self.address
    }

    /// A handle never wraps the null address.
    pub open spec fn wf(&self) -> bool {
        self.addr() != 0
    }

    /// Wrap a raw engine address in a handle bound to the scope `_scope`.
    ///
    /// Returns `None` exactly when the address is null; any other address
    /// yields a handle that observes that address unchanged. The scope
    /// argument carries no data: it only binds the handle's lifetime, so this
    /// is a pure wrapping operation with no side effect on the scope or the
    /// engine.
    pub fn from_raw<S: 'sc>(_scope: &mut S, ptr: usize) -> (r: Option<Self>)
        ensures
            ptr == 0 <==> r is None,
            r matches Some(h) ==> h.addr() == ptr && h.wf(),
    {
        if ptr == 0 {
            None
        } else {
            Some(Local { address: ptr, scope: PhantomData, ty: PhantomData })
        }
    }

    /// The address the handle observes; never null.
    pub fn raw(&self) -> (r: usize)
        requires
            self.wf(),
        ensures
            r == self.addr(),
            r != 0,
    {
        self.address
    }
}

} // verus!
