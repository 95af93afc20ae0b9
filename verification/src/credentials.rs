//! SSPI credential-handle model.
//!
//! The SSPI side names a credential by a two-word `SecHandle`; acquiring
//! one is a native call, and the handle must be freed exactly once. The
//! model mirrors [`crate::cred::Credentials`] for the GSSAPI side: one
//! live handle, read access only, one release.
use vstd::prelude::*;

verus! {

/// The two machine words of an SSPI `SecHandle`.
#[derive(Clone, Copy, Debug, PartialEq, Eq, Structural)]
pub struct SecHandleValue {
    pub lower: u64,
    pub upper: u64,
}

/// An acquired SSPI credential handle with its expiry, freed exactly
/// once.
pub struct CredentialsHandle {
    handle: SecHandleValue,
    expiry: i64,
    released: bool,
}

impl CredentialsHandle {
    pub closed spec fn spec_handle(&self) -> SecHandleValue {
        self.handle
    }

    pub closed spec fn spec_expiry(&self) -> i64 {
        self.expiry
    }

    /// A credential handle is live until its one permitted release.
    pub closed spec fn is_live(&self) -> bool {
        !self.released
    }

    /// Take ownership of a handle the native acquisition call filled in,
    /// with the expiry it reported.
    pub fn acquired(handle: SecHandleValue, expiry: i64) -> (r: CredentialsHandle)
        ensures
            r.spec_handle() == handle,
            r.spec_expiry() == expiry,
            r.is_live(),
    {
        CredentialsHandle { handle, expiry, released: false }
    }

    /// The raw handle words, for handing to the next native call.
    pub fn sec_handle(&self) -> (r: SecHandleValue)
        requires
            self.is_live(),
        ensures
            r == self.spec_handle(),
    {
        self.handle
    }

    /// Read access to the raw handle words.
    pub fn as_raw_handle(&self) -> (r: &SecHandleValue)
        requires
            self.is_live(),
        ensures
            *r == self.spec_handle(),
    {
        &self.handle
    }

    /// When the credential expires, as the provider reported it.
    pub fn expiry(&self) -> (r: i64)
        ensures
            r == self.spec_expiry(),
    {
        self.expiry
    }

    /// Free the native credential handle. Permitted exactly once.
    pub fn release(&mut self)
        requires
            old(self).is_live(),
        ensures
            !final(self).is_live(),
    {
        self.released = true;
    }
}

} // verus!
