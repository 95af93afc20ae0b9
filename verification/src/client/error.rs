//! Client-side error taxonomy for the SSPI backend.
//!
//! The SSPI client call reports one status word; each expected failure
//! status has exactly one name here, and the two refusal variants exist
//! for a client that demands a capability at finish time instead of
//! resolving it afterwards. The classification is a pure, total mapping
//! over the expected statuses.
use vstd::prelude::*;

use crate::flags::{
    ISC_RET_CONFIDENTIALITY, ISC_RET_INTEGRITY, SEC_E_INTERNAL_ERROR, SEC_E_INVALID_HANDLE,
    SEC_E_INVALID_TOKEN, SEC_E_LOGON_DENIED, SEC_E_NO_AUTHENTICATING_AUTHORITY,
    SEC_E_TARGET_UNKNOWN, SEC_E_WRONG_PRINCIPAL, has_flags,
};

verus! {

/// A failed SSPI client round, one variant per expected failure status,
/// plus the refusals a client may raise itself when the provider granted
/// less than the caller demanded.
#[derive(Clone, Copy, Debug, PartialEq, Eq, Structural)]
pub enum InitializeContextError {
    Internal,
    InvalidHandle,
    InvalidToken,
    Denied,
    NoAuthority,
    TargetUnknown,
    ServerRefusedMutualAuth,
    ServerRefusedEncryption,
    ServerRefusedSigning,
    WrongPrincipal,
}

/// The statuses of `InitializeSecurityContext` that have an error name
/// here.
pub open spec fn initialize_status_has_error(status: u32) -> bool {
    status == SEC_E_INTERNAL_ERROR || status == SEC_E_INVALID_HANDLE || status
        == SEC_E_INVALID_TOKEN || status == SEC_E_LOGON_DENIED || status
        == SEC_E_NO_AUTHENTICATING_AUTHORITY || status == SEC_E_TARGET_UNKNOWN || status
        == SEC_E_WRONG_PRINCIPAL
}

/// Which error a failed SSPI client status maps to.
pub open spec fn spec_initialize_error(status: u32) -> InitializeContextError {
    if status == SEC_E_INTERNAL_ERROR {
        InitializeContextError::Internal
    } else if status == SEC_E_INVALID_HANDLE {
        InitializeContextError::InvalidHandle
    } else if status == SEC_E_INVALID_TOKEN {
        InitializeContextError::InvalidToken
    } else if status == SEC_E_LOGON_DENIED {
        InitializeContextError::Denied
    } else if status == SEC_E_NO_AUTHENTICATING_AUTHORITY {
        InitializeContextError::NoAuthority
    } else if status == SEC_E_TARGET_UNKNOWN {
        InitializeContextError::TargetUnknown
    } else {
        InitializeContextError::WrongPrincipal
    }
}

/// Exec mirror of [`spec_initialize_error`].
pub fn initialize_error(status: u32) -> (r: InitializeContextError)
    requires
        initialize_status_has_error(status),
    ensures
        r == spec_initialize_error(status),
{
    if status == SEC_E_INTERNAL_ERROR {
        InitializeContextError::Internal
    } else if status == SEC_E_INVALID_HANDLE {
        InitializeContextError::InvalidHandle
    } else if status == SEC_E_INVALID_TOKEN {
        InitializeContextError::InvalidToken
    } else if status == SEC_E_LOGON_DENIED {
        InitializeContextError::Denied
    } else if status == SEC_E_NO_AUTHENTICATING_AUTHORITY {
        InitializeContextError::NoAuthority
    } else if status == SEC_E_TARGET_UNKNOWN {
        InitializeContextError::TargetUnknown
    } else {
        InitializeContextError::WrongPrincipal
    }
}

/// The refusal a client that demands its requested capabilities at
/// completion time raises, read off the returned attribute word:
/// demanded encryption that was not granted first, then demanded signing
/// that was not granted. This is the finish-time alternative to
/// resolving a `Maybe` marker afterwards; `None` means every demand was
/// met.
pub fn completion_refusal(
    returned_attrs: u32,
    demanded_signing: bool,
    demanded_encryption: bool,
) -> (r: Option<InitializeContextError>)
    ensures
        demanded_encryption && !has_flags(returned_attrs, ISC_RET_CONFIDENTIALITY) ==> r == Some(
            InitializeContextError::ServerRefusedEncryption,
        ),
        (!demanded_encryption || has_flags(returned_attrs, ISC_RET_CONFIDENTIALITY))
            && demanded_signing && !has_flags(returned_attrs, ISC_RET_INTEGRITY) ==> r == Some(
            InitializeContextError::ServerRefusedSigning,
        ),
        (!demanded_encryption || has_flags(returned_attrs, ISC_RET_CONFIDENTIALITY)) && (
        !demanded_signing || has_flags(returned_attrs, ISC_RET_INTEGRITY)) ==> r is None,
{
    if demanded_encryption && returned_attrs & ISC_RET_CONFIDENTIALITY != ISC_RET_CONFIDENTIALITY {
        Some(InitializeContextError::ServerRefusedEncryption)
    } else if demanded_signing && returned_attrs & ISC_RET_INTEGRITY != ISC_RET_INTEGRITY {
        Some(InitializeContextError::ServerRefusedSigning)
    } else {
        None
    }
}

} // verus!
