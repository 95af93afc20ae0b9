//! The client side of the negotiation state machine.
//!
//! One handshake round is one call of the provider's `gss_init_sec_context`;
//! that call itself stands outside this library (it is native code reached
//! through FFI), and its raw report — major and minor status, the returned
//! attribute word, the output token, whether a context handle now exists —
//! is handed back in as a [`RoundResult`]. Everything decided *about* that
//! report is decided here, under contract: a zero major status finishes the
//! handshake, a set continue bit yields a pending context that is guaranteed
//! to carry a token to transmit, and anything else is translated into the
//! error taxonomy. A pending context is consumed by the next round, so
//! rounds are strictly sequential and a handle never gains a second owner.
//!
//! A handshake may legitimately complete on the very first round (the
//! provider can authenticate against itself without a server token); this
//! library uniformly classifies such a round as `Finished` rather than
//! treating it as unreachable.
use vstd::prelude::*;

use crate::client::typestate::{DelegationPolicy, EncryptionPolicy, SignPolicy};
use crate::context_handle::ContextHandle;
use crate::cred::{Credentials, CredentialsUsage, OutboundUsable};
use crate::error::Error;
use crate::flags::{
    GSS_C_DELEG_FLAG, GSS_C_INDEFINITE, GSS_C_INTEG_FLAG, GSS_C_CONF_FLAG, GSS_C_MUTUAL_FLAG,
    GSS_S_COMPLETE, GSS_S_CONTINUE_NEEDED, ISC_REQ_MUTUAL_AUTH, has_flags,
};
use crate::typestate::{
    Delegation, Encryption, MaybeDelegation, MaybeEncryption, MaybeSigning, NoDelegation,
    NoEncryption, NoSigning, Signing,
};

pub mod builder;
pub mod error;
pub mod typestate;

verus! {

/// The request-flag word one client round asks the provider for: mutual
/// authentication always, plus whatever the three capability markers add.
pub open spec fn spec_request_flags<S: SignPolicy, E: EncryptionPolicy, D: DelegationPolicy>() -> u32 {
    GSS_C_MUTUAL_FLAG | S::spec_requested_flags() | E::spec_requested_flags()
        | D::spec_requested_flags()
}

/// The raw report of one native `gss_init_sec_context` round-trip.
pub struct RoundResult {
    /// GSS major status word.
    pub major: u32,
    /// Mechanism-specific minor status word.
    pub minor: u32,
    /// The attribute flags returned so far.
    pub attributes: u32,
    /// The output token the provider produced (copied out of the provider's
    /// buffer; possibly empty).
    pub token: Vec<u8>,
    /// Identifier of the native context handle, if the call established one.
    pub context_id: Option<u64>,
}

/// The same request, in the SSPI encoding: mutual authentication unless
/// the signing marker removes it, plus each marker's `ISC_REQ_*` bits.
pub open spec fn spec_sspi_request_flags<
    S: SignPolicy,
    E: EncryptionPolicy,
    D: DelegationPolicy,
>() -> u32 {
    (if S::spec_removes_mutual_auth() {
        0u32
    } else {
        ISC_REQ_MUTUAL_AUTH
    }) | S::spec_sspi_requested_flags() | E::spec_sspi_requested_flags()
        | D::spec_sspi_requested_flags()
}

/// The returned attribute word confirms the integrity capability.
pub open spec fn signing_granted(returned_attrs: u32) -> bool {
    has_flags(returned_attrs, GSS_C_INTEG_FLAG)
}

/// The returned attribute word confirms the confidentiality capability.
pub open spec fn encryption_granted(returned_attrs: u32) -> bool {
    has_flags(returned_attrs, GSS_C_CONF_FLAG)
}

/// The returned attribute word confirms the delegation capability.
pub open spec fn delegation_granted(returned_attrs: u32) -> bool {
    has_flags(returned_attrs, GSS_C_DELEG_FLAG)
}

/// A round completed the handshake.
pub open spec fn round_completed(major: u32) -> bool {
    major == GSS_S_COMPLETE
}

/// A round needs at least one more token exchange.
pub open spec fn round_continues(major: u32) -> bool {
    major & GSS_S_CONTINUE_NEEDED != 0
}

/// A round failed: neither completed nor continue-needed.
pub open spec fn round_failed(major: u32) -> bool {
    !round_completed(major) && !round_continues(major)
}

/// Which native context handle a failed first round left behind, if any:
/// the provider may have established a context even though the round
/// failed, and that orphan must be deleted by the caller exactly once.
pub fn abandoned_context(outcome: &RoundResult) -> (r: Option<u64>)
    ensures
        r == (if round_failed(outcome.major) {
            outcome.context_id
        } else {
            Option::<u64>::None
        }),
{
    if outcome.major != GSS_S_COMPLETE && outcome.major & GSS_S_CONTINUE_NEEDED == 0 {
        outcome.context_id
    } else {
        None
    }
}

/// A client context that has finished authentication. It may carry one
/// last token (the mutual-authentication answer) still owed to the server.
#[verifier::reject_recursive_types(S)]
#[verifier::reject_recursive_types(E)]
#[verifier::reject_recursive_types(D)]
pub struct ClientContext<S, E, D> {
    handle: ContextHandle,
    attributes: u32,
    token: Vec<u8>,
    _marker: core::marker::PhantomData<(S, E, D)>,
}

/// A client context in the middle of the handshake: it always carries the
/// token that must be sent to the server before the next round.
#[verifier::reject_recursive_types(S)]
#[verifier::reject_recursive_types(E)]
#[verifier::reject_recursive_types(D)]
pub struct PendingClientContext<S, E, D> {
    handle: ContextHandle,
    attributes: u32,
    token: Vec<u8>,
    principal: Option<String>,
    requested_duration: Option<u64>,
    channel_binding: Option<Vec<u8>>,
    _marker: core::marker::PhantomData<(S, E, D)>,
}

/// What one successful round yields: either one more pending round or the
/// finished context.
#[verifier::reject_recursive_types(S)]
#[verifier::reject_recursive_types(E)]
#[verifier::reject_recursive_types(D)]
pub enum StepOut<S, E, D> {
    Pending(PendingClientContext<S, E, D>),
    Finished(ClientContext<S, E, D>),
}

impl<S, E, D> ClientContext<S, E, D> {
    #[verifier::type_invariant]
    spec fn wf(&self) -> bool {
        self.handle.is_live()
    }

    /// The attribute word the provider returned with the final round.
    pub closed spec fn spec_attributes(&self) -> u32 {
        self.attributes
    }

    /// The last output token (empty when nothing is left to send).
    pub closed spec fn spec_token(&self) -> Seq<u8> {
        self.token@
    }

    /// Identity of the native handle this context owns.
    pub closed spec fn spec_handle_id(&self) -> u64 {
        self.handle.spec_id()
    }

    pub fn attributes(&self) -> (r: u32)
        ensures
            r == self.spec_attributes(),
    {
        self.attributes
    }

    /// Whether the provider confirmed mutual authentication.
    pub fn is_mutually_authenticated(&self) -> (r: bool)
        ensures
            r == has_flags(self.spec_attributes(), GSS_C_MUTUAL_FLAG),
    {
        self.attributes & GSS_C_MUTUAL_FLAG == GSS_C_MUTUAL_FLAG
    }

    /// The final token to transmit, if the provider produced one. A
    /// zero-length token means "nothing left to send" and is reported as
    /// `None`.
    pub fn last_token(&self) -> (r: Option<&[u8]>)
        ensures
            self.spec_token().len() == 0 ==> r is None,
            self.spec_token().len() > 0 ==> (r matches Some(t) && t@ == self.spec_token()),
    {
        if self.token.len() == 0 {
            None
        } else {
            Some(self.token.as_slice())
        }
    }

    /// Release the native context handle. Consuming the context makes this
    /// the one release it will ever see.
    pub fn release(self) {
        proof {
            use_type_invariant(&self);
        }
        let ClientContext { mut handle, .. } = self;
        handle.release();
    }

    fn retag<S2, E2, D2>(self) -> (r: ClientContext<S2, E2, D2>)
        ensures
            r.spec_attributes() == self.spec_attributes(),
            r.spec_token() == self.spec_token(),
            r.spec_handle_id() == self.spec_handle_id(),
    {
        proof {
            use_type_invariant(&self);
        }
        let ClientContext { handle, attributes, token, .. } = self;
        ClientContext { handle, attributes, token, _marker: core::marker::PhantomData }
    }
}

impl<E, D> ClientContext<MaybeSigning, E, D> {
    /// Resolve the signing capability from the *returned* attribute word:
    /// the integrity bit decides, the requested flags play no part.
    pub fn check_signing(self) -> (r: Result<
        ClientContext<Signing, E, D>,
        ClientContext<NoSigning, E, D>,
    >)
        ensures
            signing_granted(self.spec_attributes()) ==> (r matches Ok(c)
                && c.spec_attributes() == self.spec_attributes() && c.spec_token()
                == self.spec_token() && c.spec_handle_id() == self.spec_handle_id()),
            !signing_granted(self.spec_attributes()) ==> (r matches Err(c)
                && c.spec_attributes() == self.spec_attributes() && c.spec_token()
                == self.spec_token() && c.spec_handle_id() == self.spec_handle_id()),
    {
        if self.attributes & GSS_C_INTEG_FLAG == GSS_C_INTEG_FLAG {
            Ok(self.retag())
        } else {
            Err(self.retag())
        }
    }
}

impl<S, D> ClientContext<S, MaybeEncryption, D> {
    /// Resolve the encryption capability from the *returned* attribute
    /// word: the confidentiality bit decides.
    pub fn check_encryption(self) -> (r: Result<
        ClientContext<S, Encryption, D>,
        ClientContext<S, NoEncryption, D>,
    >)
        ensures
            encryption_granted(self.spec_attributes()) ==> (r matches Ok(c)
                && c.spec_attributes() == self.spec_attributes() && c.spec_token()
                == self.spec_token() && c.spec_handle_id() == self.spec_handle_id()),
            !encryption_granted(self.spec_attributes()) ==> (r matches Err(c)
                && c.spec_attributes() == self.spec_attributes() && c.spec_token()
                == self.spec_token() && c.spec_handle_id() == self.spec_handle_id()),
    {
        if self.attributes & GSS_C_CONF_FLAG == GSS_C_CONF_FLAG {
            Ok(self.retag())
        } else {
            Err(self.retag())
        }
    }
}

impl<S, E> ClientContext<S, E, MaybeDelegation> {
    /// Resolve the delegation capability from the *returned* attribute
    /// word: the delegation bit decides.
    pub fn check_delegation(self) -> (r: Result<
        ClientContext<S, E, Delegation>,
        ClientContext<S, E, NoDelegation>,
    >)
        ensures
            delegation_granted(self.spec_attributes()) ==> (r matches Ok(c)
                && c.spec_attributes() == self.spec_attributes() && c.spec_token()
                == self.spec_token() && c.spec_handle_id() == self.spec_handle_id()),
            !delegation_granted(self.spec_attributes()) ==> (r matches Err(c)
                && c.spec_attributes() == self.spec_attributes() && c.spec_token()
                == self.spec_token() && c.spec_handle_id() == self.spec_handle_id()),
    {
        if self.attributes & GSS_C_DELEG_FLAG == GSS_C_DELEG_FLAG {
            Ok(self.retag())
        } else {
            Err(self.retag())
        }
    }
}

impl<S, E, D> PendingClientContext<S, E, D> {
    #[verifier::type_invariant]
    spec fn wf(&self) -> bool {
        self.handle.is_live() && self.token@.len() > 0
    }

    /// The attribute flags accumulated so far.
    pub closed spec fn spec_attributes(&self) -> u32 {
        self.attributes
    }

    /// The token that must be sent to the server before the next round.
    pub closed spec fn spec_token(&self) -> Seq<u8> {
        self.token@
    }

    /// Identity of the native handle this context owns.
    pub closed spec fn spec_handle_id(&self) -> u64 {
        self.handle.spec_id()
    }

    /// The target principal the handshake was aimed at, if one was named.
    pub closed spec fn spec_principal(&self) -> Option<Seq<char>> {
        match self.principal {
            Some(p) => Some(p@),
            None => None,
        }
    }

    /// The channel-binding bytes folded into every round, if any. An empty
    /// binding is distinct from no binding.
    pub closed spec fn spec_channel_binding(&self) -> Option<Seq<u8>> {
        match self.channel_binding {
            Some(b) => Some(b@),
            None => None,
        }
    }

    /// The requested context lifetime in seconds, if the caller capped it.
    pub closed spec fn spec_requested_duration(&self) -> Option<u64> {
        self.requested_duration
    }

    pub fn attributes(&self) -> (r: u32)
        ensures
            r == self.spec_attributes(),
    {
        self.attributes
    }

    /// The token owed to the server. A pending context always carries one;
    /// the classification of a continue-needed round guarantees it.
    pub fn next_token(&self) -> (r: &[u8])
        ensures
            r@ == self.spec_token(),
            r@.len() > 0,
    {
        proof {
            use_type_invariant(&*self);
        }
        self.token.as_slice()
    }

    pub fn principal(&self) -> (r: &Option<String>)
        ensures
            r matches Some(p) ==> self.spec_principal() matches Some(q) && p@ == q,
            r is None <==> self.spec_principal() is None,
    {
        &self.principal
    }

    pub fn channel_binding(&self) -> (r: &Option<Vec<u8>>)
        ensures
            r matches Some(b) ==> self.spec_channel_binding() matches Some(q) && b@ == q,
            r is None <==> self.spec_channel_binding() is None,
    {
        &self.channel_binding
    }

    /// The lifetime word to hand the provider on the next round:
    /// the requested number of seconds clamped to a 32-bit word, or
    /// `GSS_C_INDEFINITE` ("as long as possible") when none was requested.
    pub fn requested_lifetime(&self) -> (r: u32)
        ensures
            r == spec_gss_lifetime(self.spec_requested_duration()),
    {
        gss_lifetime(&self.requested_duration)
    }

    /// Release the native context handle. Consuming the context makes this
    /// the one release it will ever see.
    pub fn release(self) {
        proof {
            use_type_invariant(&self);
        }
        let PendingClientContext { mut handle, .. } = self;
        handle.release();
    }
}

impl<S: SignPolicy, E: EncryptionPolicy, D: DelegationPolicy> PendingClientContext<S, E, D> {
    /// The request-flag word every round of this handshake asks for.
    pub fn request_flags(&self) -> (r: u32)
        ensures
            r == spec_request_flags::<S, E, D>(),
    {
        GSS_C_MUTUAL_FLAG | S::requested_flags() | E::requested_flags() | D::requested_flags()
    }

    /// The same request in the SSPI encoding.
    pub fn sspi_request_flags(&self) -> (r: u32)
        ensures
            r == spec_sspi_request_flags::<S, E, D>(),
    {
        let mutual: u32 = if S::removes_mutual_auth() {
            0
        } else {
            ISC_REQ_MUTUAL_AUTH
        };
        mutual | S::sspi_requested_flags() | E::sspi_requested_flags()
            | D::sspi_requested_flags()
    }

    /// Classify the next native round, made with a live outbound-usable
    /// credential. The previous pending context is consumed, so rounds
    /// are strictly sequential; the native handle moves into the
    /// successor context, or is released here when the round failed.
    ///
    /// The caller must have checked the continue-needed invariant first: a
    /// round that asks to continue but returned no token is a provider
    /// contract breach, not a recoverable error.
    pub fn step<U: CredentialsUsage + OutboundUsable>(
        self,
        cred: &Credentials<U>,
        outcome: RoundResult,
    ) -> (r: Result<StepOut<S, E, D>, Error>)
        requires
            cred.is_live(),
            round_continues(outcome.major) ==> outcome.token@.len() > 0,
        ensures
            round_completed(outcome.major) ==> (r matches Ok(s) && s matches StepOut::Finished(c)
                && c.spec_attributes() == outcome.attributes && c.spec_token() == outcome.token@
                && c.spec_handle_id() == self.spec_handle_id()),
            !round_completed(outcome.major) && round_continues(outcome.major) ==> (r matches Ok(s)
                && s matches StepOut::Pending(p) && p.spec_attributes() == outcome.attributes
                && p.spec_token() == outcome.token@ && p.spec_handle_id() == self.spec_handle_id()
                && p.spec_principal() == self.spec_principal() && p.spec_channel_binding()
                == self.spec_channel_binding() && p.spec_requested_duration()
                == self.spec_requested_duration()),
            round_failed(outcome.major) ==> (r matches Err(e) && (outcome.minor != 0 ==> (
            e matches Error::Mechanism(c) && c.spec_code() == outcome.minor)) && (outcome.minor
                == 0 ==> (e matches Error::Gss(c) && c.spec_code() == outcome.major))),
    {
        proof {
            use_type_invariant(&self);
        }
        let PendingClientContext {
            handle,
            principal,
            requested_duration,
            channel_binding,
            ..
        } = self;
        classify_round(handle, principal, requested_duration, channel_binding, outcome)
    }
}

/// The lifetime word handed to the provider for a requested duration.
pub open spec fn spec_gss_lifetime(requested: Option<u64>) -> u32 {
    match requested {
        Some(seconds) => if seconds > 0xFFFF_FFFFu64 {
            0xFFFF_FFFFu32
        } else {
            seconds as u32
        },
        None => GSS_C_INDEFINITE,
    }
}

pub(crate) fn gss_lifetime(requested: &Option<u64>) -> (r: u32)
    ensures
        r == spec_gss_lifetime(*requested),
{
    match requested {
        Some(seconds) => if *seconds > 0xFFFF_FFFFu64 {
            0xFFFF_FFFFu32
        } else {
            *seconds as u32
        },
        None => GSS_C_INDEFINITE,
    }
}

/// Shared classification of one round's report, with an already live
/// context handle.
fn classify_round<S, E, D>(
    handle: ContextHandle,
    principal: Option<String>,
    requested_duration: Option<u64>,
    channel_binding: Option<Vec<u8>>,
    outcome: RoundResult,
) -> (r: Result<StepOut<S, E, D>, Error>)
    requires
        handle.is_live(),
        round_continues(outcome.major) ==> outcome.token@.len() > 0,
    ensures
        round_completed(outcome.major) ==> (r matches Ok(s) && s matches StepOut::Finished(c)
            && c.spec_attributes() == outcome.attributes && c.spec_token() == outcome.token@
            && c.spec_handle_id() == handle.spec_id()),
        !round_completed(outcome.major) && round_continues(outcome.major) ==> (r matches Ok(s)
            && s matches StepOut::Pending(p) && p.spec_attributes() == outcome.attributes
            && p.spec_token() == outcome.token@ && p.spec_handle_id() == handle.spec_id()
            && p.spec_principal() == (match principal {
                Some(pr) => Some(pr@),
                None => None,
            }) && p.spec_channel_binding() == (match channel_binding {
                Some(b) => Some(b@),
                None => None,
            }) && p.spec_requested_duration() == requested_duration),
        round_failed(outcome.major) ==> (r matches Err(e) && (outcome.minor != 0 ==> (
        e matches Error::Mechanism(c) && c.spec_code() == outcome.minor)) && (outcome.minor == 0
            ==> (e matches Error::Gss(c) && c.spec_code() == outcome.major))),
{
    let RoundResult { major, minor, attributes, token, .. } = outcome;
    if major == GSS_S_COMPLETE {
        Ok(
            StepOut::Finished(
                ClientContext { handle, attributes, token, _marker: core::marker::PhantomData },
            ),
        )
    } else if major & GSS_S_CONTINUE_NEEDED != 0 {
        Ok(
            StepOut::Pending(
                PendingClientContext {
                    handle,
                    attributes,
                    token,
                    principal,
                    requested_duration,
                    channel_binding,
                    _marker: core::marker::PhantomData,
                },
            ),
        )
    } else {
        let mut handle = handle;
        handle.release();
        if let Some(err) = Error::mechanism(minor) {
            Err(err)
        } else {
            let gss = Error::gss(major);
            Err(gss.unwrap())
        }
    }
}

} // verus!
