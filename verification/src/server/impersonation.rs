//! Scoped impersonation of the authenticated client.
//!
//! Only a finished server context whose delegation marker is
//! `CanDelegate` can impersonate — there is no run-time path from any
//! other marker. The native impersonation is thread-local: an
//! [`Impersonation`] guard must stay on the thread that created it and
//! must be reverted on every path out of the scope, error or not; the
//! guard's one revert is tracked here the same way a handle's one
//! release is.
use vstd::prelude::*;

use crate::flags::{SEC_E_INVALID_HANDLE, SEC_E_NO_IMPERSONATION, SEC_E_OK};
use crate::server::FinishedServerContext;
use crate::server::typestate::CanDelegate;

verus! {

/// The provider refused to impersonate the client.
#[derive(Clone, Copy, Debug, PartialEq, Eq, Structural)]
pub enum ImpersonationError {
    InvalidHandle,
    NoImpersonation,
}

impl ImpersonationError {
    /// The human-readable description of the failure.
    pub fn message(&self) -> (r: &'static str)
        ensures
            *self == ImpersonationError::InvalidHandle ==> r@
                == "an invalid handle was passed to the impersonation call"@,
            *self == ImpersonationError::NoImpersonation ==> r@
                == "the client could not be impersonated"@,
    {
        match self {
            ImpersonationError::InvalidHandle => {
                "an invalid handle was passed to the impersonation call"
            },
            ImpersonationError::NoImpersonation => "the client could not be impersonated",
        }
    }
}

/// The statuses the provider contract allows on
/// `ImpersonateSecurityContext`. Anything else is a contract breach.
pub open spec fn impersonate_status_expected(status: u32) -> bool {
    status == SEC_E_OK || status == SEC_E_NO_IMPERSONATION || status == SEC_E_INVALID_HANDLE
}

/// An active impersonation scope: while the guard lives, the thread acts
/// as the authenticated client; reverting is owed exactly once and
/// happens on every exit path.
pub struct Impersonation {
    active: bool,
}

impl Impersonation {
    /// The revert is still owed.
    pub closed spec fn is_active(&self) -> bool {
        self.active
    }

    /// Give up the impersonation: the thread returns to its own security
    /// context. Consuming the guard makes this the one revert it will
    /// ever see, and only an active guard has one to perform.
    pub fn revert(self)
        requires
            self.is_active(),
    {
    }
}

impl<S, E> FinishedServerContext<S, E, CanDelegate> {
    /// Classify the native impersonation call on a delegation-capable
    /// context: success yields the guard, and each expected failure
    /// status maps to exactly one error.
    pub fn impersonate_client(&self, status: u32) -> (r: Result<Impersonation, ImpersonationError>)
        requires
            impersonate_status_expected(status),
        ensures
            status == SEC_E_OK ==> (r matches Ok(g) && g.is_active()),
            status == SEC_E_NO_IMPERSONATION ==> r == Result::<
                Impersonation,
                ImpersonationError,
            >::Err(ImpersonationError::NoImpersonation),
            status == SEC_E_INVALID_HANDLE ==> r == Result::<Impersonation, ImpersonationError>::Err(
                ImpersonationError::InvalidHandle,
            ),
    {
        if status == SEC_E_OK {
            Ok(Impersonation { active: true })
        } else if status == SEC_E_NO_IMPERSONATION {
            Err(ImpersonationError::NoImpersonation)
        } else {
            Err(ImpersonationError::InvalidHandle)
        }
    }
}

} // verus!
