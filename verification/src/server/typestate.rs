//! Server-side capability markers and policies.
//!
//! The server's family is asymmetric to the client's: a server *offers*
//! signing and encryption and *asks* the client for delegation; the
//! terminal "can" markers appear only after resolution against the
//! provider's returned attribute word. Each policy names both the request
//! bits a round asks for and the returned bit that confirms the grant.
use vstd::prelude::*;

use crate::flags::{
    ASC_REQ_CONFIDENTIALITY, ASC_REQ_DELEGATE, ASC_REQ_INTEGRITY, ASC_RET_CONFIDENTIALITY,
    ASC_RET_DELEGATE, ASC_RET_INTEGRITY,
};

verus! {

/// Signing was not offered, or the provider did not grant it.
pub struct NoSigning;

/// Signing was offered; not yet confirmed by a finished handshake.
pub struct MaybeSign;

/// The finished handshake confirmed the integrity capability.
pub struct CanSign;

/// Encryption was not offered, or the provider did not grant it.
pub struct NoEncryption;

/// Encryption was offered; not yet confirmed by a finished handshake.
pub struct MaybeEncrypt;

/// The finished handshake confirmed the confidentiality capability.
pub struct CanEncrypt;

/// Delegation was not requested, or the client did not allow it.
pub struct NoDelegation;

/// Delegation was requested from the client; not yet confirmed.
pub struct OfferDelegate;

/// The finished handshake confirmed the delegation capability.
pub struct CanDelegate;

/// Closes the policy traits over the markers defined by this crate.
pub trait Sealed {}

impl Sealed for NoSigning {}

impl Sealed for MaybeSign {}

impl Sealed for NoEncryption {}

impl Sealed for MaybeEncrypt {}

impl Sealed for NoDelegation {}

impl Sealed for OfferDelegate {}

/// The integrity bits a signing marker asks for, and the returned bit
/// that confirms the grant.
pub trait SigningPolicy: Sealed {
    spec fn spec_request_flags() -> u32;

    spec fn spec_return_flags() -> u32;

    fn request_flags() -> (r: u32)
        ensures
            r == Self::spec_request_flags(),
    ;
}

impl SigningPolicy for NoSigning {
    open spec fn spec_request_flags() -> u32 {
        0
    }

    open spec fn spec_return_flags() -> u32 {
        0
    }

    fn request_flags() -> u32 {
        0
    }
}

impl SigningPolicy for MaybeSign {
    open spec fn spec_request_flags() -> u32 {
        ASC_REQ_INTEGRITY
    }

    open spec fn spec_return_flags() -> u32 {
        ASC_RET_INTEGRITY
    }

    fn request_flags() -> u32 {
        ASC_REQ_INTEGRITY
    }
}

/// The confidentiality bits an encryption marker asks for, and the
/// returned bit that confirms the grant.
pub trait EncryptionPolicy: Sealed {
    spec fn spec_request_flags() -> u32;

    spec fn spec_return_flags() -> u32;

    fn request_flags() -> (r: u32)
        ensures
            r == Self::spec_request_flags(),
    ;
}

impl EncryptionPolicy for NoEncryption {
    open spec fn spec_request_flags() -> u32 {
        0
    }

    open spec fn spec_return_flags() -> u32 {
        0
    }

    fn request_flags() -> u32 {
        0
    }
}

impl EncryptionPolicy for MaybeEncrypt {
    open spec fn spec_request_flags() -> u32 {
        ASC_REQ_CONFIDENTIALITY
    }

    open spec fn spec_return_flags() -> u32 {
        ASC_RET_CONFIDENTIALITY
    }

    fn request_flags() -> u32 {
        ASC_REQ_CONFIDENTIALITY
    }
}

/// The delegation bits a delegation marker asks for, and the returned bit
/// that confirms the grant.
pub trait DelegationPolicy: Sealed {
    spec fn spec_request_flags() -> u32;

    spec fn spec_return_flags() -> u32;

    fn request_flags() -> (r: u32)
        ensures
            r == Self::spec_request_flags(),
    ;
}

impl DelegationPolicy for NoDelegation {
    open spec fn spec_request_flags() -> u32 {
        0
    }

    open spec fn spec_return_flags() -> u32 {
        0
    }

    fn request_flags() -> u32 {
        0
    }
}

impl DelegationPolicy for OfferDelegate {
    open spec fn spec_request_flags() -> u32 {
        ASC_REQ_DELEGATE
    }

    open spec fn spec_return_flags() -> u32 {
        ASC_RET_DELEGATE
    }

    fn request_flags() -> u32 {
        ASC_REQ_DELEGATE
    }
}

} // verus!
