//! Ownership model of a native security-context handle.
//!
//! The provider hands out one context handle per negotiation; the handle
//! must be released exactly once, whatever number of rounds preceded it.
//! A [`ContextHandle`] value stands for that obligation: it is created live
//! when the provider establishes a context, it moves (never copies) through
//! the pending and finished context values, and [`ContextHandle::release`]
//! is the only transition to the released state. Its precondition demands a
//! live handle, so a second release of the same handle is ruled out at
//! verification time, and every context type's well-formedness condition
//! keeps the handle it owns live until the owner is consumed.
use vstd::prelude::*;

verus! {

/// The single-release obligation for one native context handle.
pub struct ContextHandle {
    id: u64,
    released: bool,
}

impl ContextHandle {
    /// The caller-chosen identifier of the native handle this obligation
    /// stands for.
    pub closed spec fn spec_id(&self) -> u64 {
        self.id
    }

    /// A handle is live until its one permitted release.
    pub closed spec fn is_live(&self) -> bool {
        !self.released
    }

    /// Take ownership of a freshly established native context.
    pub fn new(id: u64) -> (h: ContextHandle)
        ensures
            h.is_live(),
            h.spec_id() == id,
    {
        ContextHandle { id, released: false }
    }

    pub fn id(&self) -> (r: u64)
        ensures
            r == self.spec_id(),
    {
        self.id
    }

    /// Release the native handle. Permitted exactly once: the precondition
    /// refuses a handle that was already released.
    pub fn release(&mut self)
        requires
            old(self).is_live(),
        ensures
            !final(self).is_live(),
            final(self).spec_id() == old(self).spec_id(),
    {
        self.released = true;
    }
}

} // verus!
