//! Credential-handle model and usage markers.
//!
//! A credential is acquired by one native call per principal and released
//! exactly once; in between it is read-only and may back any number of
//! concurrently negotiating contexts. The usage markers say on which side
//! of a handshake a credential may stand, so that a server cannot be built
//! on an outbound-only credential (and the other way round) — checked by
//! the compiler, not at run time.
use vstd::prelude::*;

use crate::error::Error;

verus! {

/// Credentials that can only accept (server side).
pub struct Inbound;

/// Credentials that can only initiate (client side).
pub struct Outbound;

/// Credentials usable on both sides.
pub struct Both;

/// Marker for credential usages a server can accept with.
pub trait InboundUsable {}

impl InboundUsable for Inbound {}

impl InboundUsable for Both {}

/// Marker for credential usages a client can initiate with.
pub trait OutboundUsable {}

impl OutboundUsable for Outbound {}

impl OutboundUsable for Both {}

/// The provider-level encoding of a credential usage: the GSSAPI
/// `gss_cred_usage_t` value and the SSPI `SECPKG_CRED_*` value.
pub trait CredentialsUsage {
    spec fn spec_gss_usage() -> u32;

    spec fn spec_sspi_usage() -> u32;

    /// `GSS_C_BOTH` (0), `GSS_C_INITIATE` (1) or `GSS_C_ACCEPT` (2).
    fn gss_usage() -> (r: u32)
        ensures
            r == Self::spec_gss_usage(),
    ;

    /// `SECPKG_CRED_INBOUND` (1), `SECPKG_CRED_OUTBOUND` (2) or
    /// `SECPKG_CRED_BOTH` (3).
    fn sspi_usage() -> (r: u32)
        ensures
            r == Self::spec_sspi_usage(),
    ;
}

impl CredentialsUsage for Inbound {
    open spec fn spec_gss_usage() -> u32 {
        2
    }

    open spec fn spec_sspi_usage() -> u32 {
        1
    }

    fn gss_usage() -> u32 {
        2
    }

    fn sspi_usage() -> u32 {
        1
    }
}

impl CredentialsUsage for Outbound {
    open spec fn spec_gss_usage() -> u32 {
        1
    }

    open spec fn spec_sspi_usage() -> u32 {
        2
    }

    fn gss_usage() -> u32 {
        1
    }

    fn sspi_usage() -> u32 {
        2
    }
}

impl CredentialsUsage for Both {
    open spec fn spec_gss_usage() -> u32 {
        0
    }

    open spec fn spec_sspi_usage() -> u32 {
        3
    }

    fn gss_usage() -> u32 {
        0
    }

    fn sspi_usage() -> u32 {
        3
    }
}

/// What the native credential-acquisition call reported.
#[derive(Clone, Copy, Debug, PartialEq, Eq, Structural)]
pub struct AcquireOutcome {
    /// GSS major status word of `gss_acquire_cred`.
    pub major: u32,
    /// Mechanism minor status word.
    pub minor: u32,
    /// Whether the call produced a non-null credential handle.
    pub handle_present: bool,
    /// Seconds the acquired credential remains valid.
    pub validity_seconds: u32,
}

/// An acquired provider credential: one native handle, released exactly
/// once, read-only in between.
#[verifier::reject_recursive_types(Usage)]
pub struct Credentials<Usage> {
    released: bool,
    validity_seconds: u32,
    _usage: core::marker::PhantomData<Usage>,
}

impl<Usage: CredentialsUsage> Credentials<Usage> {
    /// A credential is live until its one permitted release.
    pub closed spec fn is_live(&self) -> bool {
        !self.released
    }

    pub closed spec fn spec_validity_seconds(&self) -> u32 {
        self.validity_seconds
    }

    /// Classify the result of the native acquisition call: a non-zero
    /// major status is a GSS error, a non-zero minor status a mechanism
    /// error, and a null handle despite success is `GSS_S_FAILURE`.
    pub fn from_acquire(outcome: AcquireOutcome) -> (r: Result<Credentials<Usage>, Error>)
        ensures
            outcome.major != 0 ==> (r matches Err(e) && e matches Error::Gss(c)
                && c.spec_code() == outcome.major),
            outcome.major == 0 && outcome.minor != 0 ==> (r matches Err(e)
                && e matches Error::Mechanism(c) && c.spec_code() == outcome.minor),
            outcome.major == 0 && outcome.minor == 0 && !outcome.handle_present ==> (r matches Err(
                e,
            ) && e matches Error::Gss(c) && c.spec_code() == crate::flags::GSS_S_FAILURE),
            outcome.major == 0 && outcome.minor == 0 && outcome.handle_present ==> (r matches Ok(c)
                && c.is_live() && c.spec_validity_seconds() == outcome.validity_seconds),
    {
        if let Some(err) = Error::gss(outcome.major) {
            return Err(err);
        }
        if let Some(err) = Error::mechanism(outcome.minor) {
            return Err(err);
        }
        if !outcome.handle_present {
            let failure = Error::gss(crate::flags::GSS_S_FAILURE);
            return Err(failure.unwrap());
        }
        Ok(
            Credentials {
                released: false,
                validity_seconds: outcome.validity_seconds,
                _usage: core::marker::PhantomData,
            },
        )
    }

    /// Seconds the credential was reported valid for at acquisition.
    pub fn validity_seconds(&self) -> (r: u32)
        ensures
            r == self.spec_validity_seconds(),
    {
        self.validity_seconds
    }

    /// Release the native credential handle. Permitted exactly once.
    pub fn release(&mut self)
        requires
            old(self).is_live(),
        ensures
            !final(self).is_live(),
    {
        self.released = true;
    }
}

impl Credentials<Both> {
    /// Use a both-ways credential on the server side only.
    pub fn into_inbound(self) -> (r: Credentials<Inbound>)
        ensures
            r.is_live() == self.is_live(),
            r.spec_validity_seconds() == self.spec_validity_seconds(),
    {
        let Credentials { released, validity_seconds, .. } = self;
        Credentials { released, validity_seconds, _usage: core::marker::PhantomData }
    }

    /// Use a both-ways credential on the client side only.
    pub fn into_outbound(self) -> (r: Credentials<Outbound>)
        ensures
            r.is_live() == self.is_live(),
            r.spec_validity_seconds() == self.spec_validity_seconds(),
    {
        let Credentials { released, validity_seconds, .. } = self;
        Credentials { released, validity_seconds, _usage: core::marker::PhantomData }
    }
}

/// A failed credential acquisition, as one platform-neutral value.
pub struct CredentialsError {
    inner: Error,
}

impl CredentialsError {
    pub closed spec fn spec_inner(&self) -> Error {
        self.inner
    }

    pub fn from_inner(inner: Error) -> (r: CredentialsError)
        ensures
            r.spec_inner() == inner,
    {
        CredentialsError { inner }
    }

    pub fn inner(&self) -> (r: Error)
        ensures
            r == self.spec_inner(),
    {
        self.inner
    }
}

} // verus!
