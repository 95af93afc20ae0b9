//! Client-side capability policies: what each marker asks the provider for.
//!
//! A policy turns a pre-resolution capability marker into the request-flag
//! bits that one handshake round asks for, in both providers' encodings:
//! the GSSAPI request word and the SSPI `ISC_REQ_*` word. The terminal
//! markers (`Signing`, `Encryption`, `Delegation`) carry no policy: they
//! exist only after resolution, when no further round is stepped. One
//! marker bends the shared rule that mutual authentication is always
//! requested: refusing signing outright (`DeniedSigning`) asks SSPI for
//! `ISC_REQ_NO_INTEGRITY` and drops the mutual-authentication request,
//! which integrity would otherwise enforce.
use vstd::prelude::*;

use crate::flags::{
    GSS_C_CONF_FLAG, GSS_C_DELEG_FLAG, GSS_C_INTEG_FLAG, ISC_REQ_CONFIDENTIALITY,
    ISC_REQ_DELEGATE, ISC_REQ_INTEGRITY, ISC_REQ_NO_INTEGRITY,
};
use crate::typestate::{
    DeniedSigning, MaybeDelegation, MaybeEncryption, MaybeSigning, NoDelegation, NoEncryption,
    NoSigning,
};

verus! {

/// Closes the policy traits over the markers defined by this crate.
pub trait Sealed {}

impl Sealed for NoSigning {}

impl Sealed for MaybeSigning {}

impl Sealed for DeniedSigning {}

impl Sealed for NoEncryption {}

impl Sealed for MaybeEncryption {}

impl Sealed for NoDelegation {}

impl Sealed for MaybeDelegation {}

/// The integrity bits a signing marker adds to the request word, and
/// whether it removes the otherwise mandatory mutual-authentication
/// request on the SSPI side.
pub trait SignPolicy: Sealed {
    spec fn spec_requested_flags() -> u32;

    spec fn spec_sspi_requested_flags() -> u32;

    spec fn spec_removes_mutual_auth() -> bool;

    fn requested_flags() -> (r: u32)
        ensures
            r == Self::spec_requested_flags(),
    ;

    fn sspi_requested_flags() -> (r: u32)
        ensures
            r == Self::spec_sspi_requested_flags(),
    ;

    fn removes_mutual_auth() -> (r: bool)
        ensures
            r == Self::spec_removes_mutual_auth(),
    ;
}

impl SignPolicy for NoSigning {
    open spec fn spec_requested_flags() -> u32 {
        0
    }

    open spec fn spec_sspi_requested_flags() -> u32 {
        0
    }

    open spec fn spec_removes_mutual_auth() -> bool {
        false
    }

    fn requested_flags() -> u32 {
        0
    }

    fn sspi_requested_flags() -> u32 {
        0
    }

    fn removes_mutual_auth() -> bool {
        false
    }
}

impl SignPolicy for MaybeSigning {
    open spec fn spec_requested_flags() -> u32 {
        GSS_C_INTEG_FLAG
    }

    open spec fn spec_sspi_requested_flags() -> u32 {
        ISC_REQ_INTEGRITY
    }

    open spec fn spec_removes_mutual_auth() -> bool {
        false
    }

    fn requested_flags() -> u32 {
        GSS_C_INTEG_FLAG
    }

    fn sspi_requested_flags() -> u32 {
        ISC_REQ_INTEGRITY
    }

    fn removes_mutual_auth() -> bool {
        false
    }
}

impl SignPolicy for DeniedSigning {
    open spec fn spec_requested_flags() -> u32 {
        0
    }

    open spec fn spec_sspi_requested_flags() -> u32 {
        ISC_REQ_NO_INTEGRITY
    }

    open spec fn spec_removes_mutual_auth() -> bool {
        true
    }

    fn requested_flags() -> u32 {
        0
    }

    fn sspi_requested_flags() -> u32 {
        ISC_REQ_NO_INTEGRITY
    }

    fn removes_mutual_auth() -> bool {
        true
    }
}

/// The confidentiality bits an encryption marker adds to the request
/// word.
pub trait EncryptionPolicy: Sealed {
    spec fn spec_requested_flags() -> u32;

    spec fn spec_sspi_requested_flags() -> u32;

    fn requested_flags() -> (r: u32)
        ensures
            r == Self::spec_requested_flags(),
    ;

    fn sspi_requested_flags() -> (r: u32)
        ensures
            r == Self::spec_sspi_requested_flags(),
    ;
}

impl EncryptionPolicy for NoEncryption {
    open spec fn spec_requested_flags() -> u32 {
        0
    }

    open spec fn spec_sspi_requested_flags() -> u32 {
        0
    }

    fn requested_flags() -> u32 {
        0
    }

    fn sspi_requested_flags() -> u32 {
        0
    }
}

impl EncryptionPolicy for MaybeEncryption {
    open spec fn spec_requested_flags() -> u32 {
        GSS_C_CONF_FLAG
    }

    open spec fn spec_sspi_requested_flags() -> u32 {
        ISC_REQ_CONFIDENTIALITY
    }

    fn requested_flags() -> u32 {
        GSS_C_CONF_FLAG
    }

    fn sspi_requested_flags() -> u32 {
        ISC_REQ_CONFIDENTIALITY
    }
}

/// The delegation bits a delegation marker adds to the request word.
pub trait DelegationPolicy: Sealed {
    spec fn spec_requested_flags() -> u32;

    spec fn spec_sspi_requested_flags() -> u32;

    fn requested_flags() -> (r: u32)
        ensures
            r == Self::spec_requested_flags(),
    ;

    fn sspi_requested_flags() -> (r: u32)
        ensures
            r == Self::spec_sspi_requested_flags(),
    ;
}

impl DelegationPolicy for NoDelegation {
    open spec fn spec_requested_flags() -> u32 {
        0
    }

    open spec fn spec_sspi_requested_flags() -> u32 {
        0
    }

    fn requested_flags() -> u32 {
        0
    }

    fn sspi_requested_flags() -> u32 {
        0
    }
}

impl DelegationPolicy for MaybeDelegation {
    open spec fn spec_requested_flags() -> u32 {
        GSS_C_DELEG_FLAG
    }

    open spec fn spec_sspi_requested_flags() -> u32 {
        ISC_REQ_DELEGATE
    }

    fn requested_flags() -> u32 {
        GSS_C_DELEG_FLAG
    }

    fn sspi_requested_flags() -> u32 {
        ISC_REQ_DELEGATE
    }
}

} // verus!
