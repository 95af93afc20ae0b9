//! Message protection on a finished client context.
//!
//! The cryptography is the provider's (`gss_wrap` / `gss_unwrap`); the
//! library decides what the raw report means. The capability markers gate
//! every operation at the type level: `sign` and `unwrap` exist only on a
//! context whose signing marker is `Signing`, `encrypt` additionally
//! demands `Encryption` — there is no run-time path to these operations
//! from an unresolved or refused capability.
//!
//! Failure shapes follow the provider contract: wrapping reports the full
//! error taxonomy; unwrapping a previously protected message can only
//! fail because the message was altered or its token is defective, and is
//! reported as [`Altered`] — any other status on unwrap is a provider
//! contract breach and is excluded, not handled.
use vstd::prelude::*;

use crate::client::ClientContext;
use crate::error::Error;
use crate::flags::{GSS_S_BAD_SIG, GSS_S_COMPLETE, GSS_S_DEFECTIVE_TOKEN};
use crate::typestate::{Encryption, Signing};

verus! {

/// The raw report of one `gss_wrap` call.
pub struct WrapOutcome {
    /// GSS major status word.
    pub major: u32,
    /// Mechanism-specific minor status word.
    pub minor: u32,
    /// Non-zero when the provider applied confidentiality.
    pub conf_state: i32,
    /// The wrapped message (copied out of the provider's buffer).
    pub wrapped: Vec<u8>,
}

/// The raw report of one `gss_unwrap` call.
pub struct UnwrapOutcome {
    /// GSS major status word.
    pub major: u32,
    /// Non-zero when the message had been encrypted, not merely signed.
    pub conf_state: i32,
    /// The recovered plaintext (copied out of the provider's buffer).
    pub plaintext: Vec<u8>,
}

/// The statuses the provider contract allows on unwrapping a message that
/// was produced by a peer's wrap: success, a bad signature, or a
/// defective token. Everything else is a contract breach.
pub open spec fn unwrap_status_expected(major: u32) -> bool {
    major == GSS_S_COMPLETE || major == GSS_S_BAD_SIG || major == GSS_S_DEFECTIVE_TOKEN
}

/// A provider-computed integrity token over a message.
pub struct Signed {
    bytes: Vec<u8>,
}

impl Signed {
    pub closed spec fn spec_bytes(&self) -> Seq<u8> {
        self.bytes@
    }

    pub fn as_slice(&self) -> (r: &[u8])
        ensures
            r@ == self.spec_bytes(),
    {
        self.bytes.as_slice()
    }
}

/// A provider-encrypted message.
pub struct Encrypted {
    bytes: Vec<u8>,
}

impl Encrypted {
    pub closed spec fn spec_bytes(&self) -> Seq<u8> {
        self.bytes@
    }

    pub fn as_slice(&self) -> (r: &[u8])
        ensures
            r@ == self.spec_bytes(),
    {
        self.bytes.as_slice()
    }
}

/// A message recovered from a wrapped peer message, together with whether
/// confidentiality had actually been applied to it. A peer may have only
/// signed a message the caller expected encrypted; check the flag.
pub struct Plaintext {
    bytes: Vec<u8>,
    was_encrypted: bool,
}

impl Plaintext {
    pub closed spec fn spec_bytes(&self) -> Seq<u8> {
        self.bytes@
    }

    pub closed spec fn spec_was_encrypted(&self) -> bool {
        self.was_encrypted
    }

    /// Make a recovered payload (crate-internal: the two backends build
    /// plaintexts from their own framing).
    pub(crate) fn new(bytes: Vec<u8>, was_encrypted: bool) -> (r: Plaintext)
        ensures
            r.spec_bytes() == bytes@,
            r.spec_was_encrypted() == was_encrypted,
    {
        Plaintext { bytes, was_encrypted }
    }

    pub fn as_slice(&self) -> (r: &[u8])
        ensures
            r@ == self.spec_bytes(),
    {
        self.bytes.as_slice()
    }

    pub fn was_encrypted(&self) -> (r: bool)
        ensures
            r == self.spec_was_encrypted(),
    {
        self.was_encrypted
    }
}

/// The peer's message failed integrity verification: it was altered in
/// transit, or its protection token is not one this context produced a
/// key for. A recoverable, security-relevant outcome — reject the
/// message, do not crash.
#[derive(Clone, Copy, Debug, PartialEq, Eq, Structural)]
pub struct Altered;

impl Altered {
    /// The human-readable description of the failure.
    pub fn message(&self) -> (r: &'static str)
        ensures
            r@ == "the message has been altered or its signature is invalid"@,
    {
        "the message has been altered or its signature is invalid"
    }
}

impl<E, D> ClientContext<Signing, E, D> {
    /// Classify a `gss_wrap` call made without confidentiality: the
    /// provider-computed integrity token, or the provider's error.
    pub fn sign(&self, outcome: WrapOutcome) -> (r: Result<Signed, Error>)
        ensures
            outcome.major != 0 ==> (r matches Err(e) && e matches Error::Gss(c) && c.spec_code()
                == outcome.major),
            outcome.major == 0 && outcome.minor != 0 ==> (r matches Err(e)
                && e matches Error::Mechanism(c) && c.spec_code() == outcome.minor),
            outcome.major == 0 && outcome.minor == 0 ==> (r matches Ok(s) && s.spec_bytes()
                == outcome.wrapped@),
    {
        if let Some(err) = Error::gss(outcome.major) {
            return Err(err);
        }
        if let Some(err) = Error::mechanism(outcome.minor) {
            return Err(err);
        }
        Ok(Signed { bytes: outcome.wrapped })
    }

    /// Classify a `gss_unwrap` call on a peer's wrapped message. The
    /// provider contract allows exactly two failures there — message
    /// altered, defective token — and both mean the same to a caller:
    /// [`Altered`]. The report says whether confidentiality had actually
    /// been applied; callers expecting encryption must check it.
    pub fn unwrap(&self, outcome: UnwrapOutcome) -> (r: Result<Plaintext, Altered>)
        requires
            unwrap_status_expected(outcome.major),
        ensures
            outcome.major == 0 ==> (r matches Ok(p) && p.spec_bytes() == outcome.plaintext@
                && p.spec_was_encrypted() == (outcome.conf_state != 0)),
            outcome.major != 0 ==> r == Result::<Plaintext, Altered>::Err(Altered),
    {
        if outcome.major == 0 {
            Ok(
                Plaintext {
                    bytes: outcome.plaintext,
                    was_encrypted: outcome.conf_state != 0,
                },
            )
        } else {
            Err(Altered)
        }
    }
}

impl<D> ClientContext<Signing, Encryption, D> {
    /// Classify a `gss_wrap` call made with confidentiality. A success on
    /// which the provider nevertheless reports "no confidentiality
    /// applied" is a provider contract breach and is excluded here, not
    /// handled.
    pub fn encrypt(&self, outcome: WrapOutcome) -> (r: Result<Encrypted, Error>)
        requires
            outcome.major == 0 && outcome.minor == 0 ==> outcome.conf_state != 0,
        ensures
            outcome.major != 0 ==> (r matches Err(e) && e matches Error::Gss(c) && c.spec_code()
                == outcome.major),
            outcome.major == 0 && outcome.minor != 0 ==> (r matches Err(e)
                && e matches Error::Mechanism(c) && c.spec_code() == outcome.minor),
            outcome.major == 0 && outcome.minor == 0 ==> (r matches Ok(s) && s.spec_bytes()
                == outcome.wrapped@),
    {
        if let Some(err) = Error::gss(outcome.major) {
            return Err(err);
        }
        if let Some(err) = Error::mechanism(outcome.minor) {
            return Err(err);
        }
        Ok(Encrypted { bytes: outcome.wrapped })
    }
}

/// The negotiated session key, extracted from a finished context. The
/// bytes stand for a provider-owned allocation and may be read only until
/// the one permitted release.
pub struct SessionKey {
    bytes: Vec<u8>,
    released: bool,
}

impl SessionKey {
    pub closed spec fn spec_bytes(&self) -> Seq<u8> {
        self.bytes@
    }

    /// A session key is live until its one permitted release.
    pub closed spec fn is_live(&self) -> bool {
        !self.released
    }

    /// The key material. Reading it demands a key that was not yet
    /// released.
    pub fn as_slice(&self) -> (r: &[u8])
        requires
            self.is_live(),
        ensures
            r@ == self.spec_bytes(),
    {
        self.bytes.as_slice()
    }

    /// Release the provider allocation behind the key. Permitted exactly
    /// once.
    pub fn release(&mut self)
        requires
            old(self).is_live(),
        ensures
            !final(self).is_live(),
    {
        self.released = true;
    }
}

/// The raw report of the session-key attribute query.
pub struct SessionKeyOutcome {
    /// GSS major status word.
    pub major: u32,
    /// Mechanism-specific minor status word.
    pub minor: u32,
    /// The key material (copied out of the provider's buffer set).
    pub key: Vec<u8>,
}

impl<S, E, D> ClientContext<S, E, D> {
    /// Classify the mechanism-specific session-key query on a finished
    /// context.
    pub fn session_key(&self, outcome: SessionKeyOutcome) -> (r: Result<SessionKey, Error>)
        ensures
            outcome.major != 0 ==> (r matches Err(e) && e matches Error::Gss(c) && c.spec_code()
                == outcome.major),
            outcome.major == 0 && outcome.minor != 0 ==> (r matches Err(e)
                && e matches Error::Mechanism(c) && c.spec_code() == outcome.minor),
            outcome.major == 0 && outcome.minor == 0 ==> (r matches Ok(k) && k.spec_bytes()
                == outcome.key@ && k.is_live()),
    {
        if let Some(err) = Error::gss(outcome.major) {
            return Err(err);
        }
        if let Some(err) = Error::mechanism(outcome.minor) {
            return Err(err);
        }
        Ok(SessionKey { bytes: outcome.key, released: false })
    }
}

/// Platform-neutral wrapper around a provider-computed signature.
pub struct Signature {
    inner: Signed,
}

impl Signature {
    pub closed spec fn spec_bytes(&self) -> Seq<u8> {
        self.inner.spec_bytes()
    }

    pub fn from_inner(inner: Signed) -> (r: Signature)
        ensures
            r.spec_bytes() == inner.spec_bytes(),
    {
        Signature { inner }
    }

    pub fn as_slice(&self) -> (r: &[u8])
        ensures
            r@ == self.spec_bytes(),
    {
        self.inner.as_slice()
    }
}

/// A failed wrap (sign or encrypt) call, as the provider reported it.
pub struct WrapError {
    inner: Error,
}

impl WrapError {
    pub closed spec fn spec_inner(&self) -> Error {
        self.inner
    }

    pub fn from_inner(inner: Error) -> (r: WrapError)
        ensures
            r.spec_inner() == inner,
    {
        WrapError { inner }
    }

    pub fn inner(&self) -> (r: Error)
        ensures
            r == self.spec_inner(),
    {
        self.inner
    }
}

/// A failed unwrap: the message did not verify.
pub struct UnwrapError {
    inner: Altered,
}

impl UnwrapError {
    pub closed spec fn spec_inner(&self) -> Altered {
        self.inner
    }

    pub fn from_inner(inner: Altered) -> (r: UnwrapError)
        ensures
            r.spec_inner() == inner,
    {
        UnwrapError { inner }
    }
}

} // verus!
