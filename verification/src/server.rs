//! The server side of the negotiation state machine.
//!
//! One round is one call of the provider's `AcceptSecurityContext`; the
//! call stands outside this library and its raw report comes back as an
//! [`AcceptOutcome`]. The classification contract mirrors the client's:
//! success finishes, continue-needed yields a pending context guaranteed
//! to carry a token, and each expected failure status maps to exactly one
//! variant of [`AcceptContextError`]. A status outside the provider
//! contract for this call is excluded, not handled.
//!
//! As on the client side, a handshake may complete on the very first
//! token the client sends; such a round is uniformly classified as
//! `Finished`.
use vstd::prelude::*;

use crate::channel_bindings::Channel;
use crate::context_handle::ContextHandle;
use crate::cred::{Credentials, CredentialsUsage, InboundUsable};
use crate::flags::{
    ASC_REQ_MUTUAL_AUTH, ASC_RET_MUTUAL_AUTH, SEC_E_INTERNAL_ERROR, SEC_E_INVALID_HANDLE,
    SEC_E_INVALID_TOKEN, SEC_E_LOGON_DENIED, SEC_E_NO_AUTHENTICATING_AUTHORITY, SEC_E_OK,
    SEC_I_CONTINUE_NEEDED, has_flags,
};
use crate::server::typestate::{
    CanDelegate, CanEncrypt, CanSign, DelegationPolicy, EncryptionPolicy, MaybeEncrypt, MaybeSign,
    NoDelegation, NoEncryption, NoSigning, OfferDelegate, SigningPolicy,
};

pub mod impersonation;
pub mod typestate;

verus! {

/// The request-flag word one server round asks the provider for: mutual
/// authentication acknowledgment always, plus whatever the three
/// capability markers add.
pub open spec fn spec_accept_request_flags<
    S: SigningPolicy,
    E: EncryptionPolicy,
    D: DelegationPolicy,
>() -> u32 {
    ASC_REQ_MUTUAL_AUTH | S::spec_request_flags() | E::spec_request_flags()
        | D::spec_request_flags()
}

/// The raw report of one native `AcceptSecurityContext` round-trip.
pub struct AcceptOutcome {
    /// The call's security status word (raw HRESULT bits).
    pub status: u32,
    /// The attribute flags returned so far.
    pub attributes: u32,
    /// The output token the provider produced (possibly empty).
    pub token: Vec<u8>,
    /// Identifier of the native context handle, if the call established
    /// one.
    pub context_id: Option<u64>,
    /// When the context expires, as the provider's local file time.
    pub expiry: i64,
}

/// The statuses the provider contract allows on accepting a Negotiate
/// token. Anything else is a provider contract breach for this call
/// shape — in particular the complete-and-continue shapes that would
/// demand a `CompleteAuthToken` pass: Negotiate never produces them, so
/// they stay outside the expected set instead of being handled.
pub open spec fn accept_status_expected(status: u32) -> bool {
    status == SEC_E_OK || status == SEC_I_CONTINUE_NEEDED || status == SEC_E_INTERNAL_ERROR
        || status == SEC_E_INVALID_HANDLE || status == SEC_E_INVALID_TOKEN || status
        == SEC_E_LOGON_DENIED || status == SEC_E_NO_AUTHENTICATING_AUTHORITY
}

/// A failed server round, one variant per expected failure status.
#[derive(Clone, Copy, Debug, PartialEq, Eq, Structural)]
pub enum AcceptContextError {
    Internal,
    InvalidHandle,
    InvalidToken,
    Denied,
    NoAuthority,
}

impl AcceptContextError {
    /// The human-readable description of the failure.
    pub fn message(&self) -> (r: &'static str)
        ensures
            *self == AcceptContextError::Internal ==> r@ == "internal provider error"@,
            *self == AcceptContextError::InvalidHandle ==> r@
                == "an invalid handle was passed to the provider"@,
            *self == AcceptContextError::InvalidToken ==> r@
                == "the client's token is not a valid Negotiate token"@,
            *self == AcceptContextError::Denied ==> r@ == "access denied"@,
            *self == AcceptContextError::NoAuthority ==> r@
                == "no authenticating authority could be contacted"@,
    {
        match self {
            AcceptContextError::Internal => "internal provider error",
            AcceptContextError::InvalidHandle => "an invalid handle was passed to the provider",
            AcceptContextError::InvalidToken => "the client's token is not a valid Negotiate token",
            AcceptContextError::Denied => "access denied",
            AcceptContextError::NoAuthority => "no authenticating authority could be contacted",
        }
    }
}

/// Which error a failed accept status maps to.
pub open spec fn spec_accept_error(status: u32) -> AcceptContextError {
    if status == SEC_E_INTERNAL_ERROR {
        AcceptContextError::Internal
    } else if status == SEC_E_INVALID_HANDLE {
        AcceptContextError::InvalidHandle
    } else if status == SEC_E_INVALID_TOKEN {
        AcceptContextError::InvalidToken
    } else if status == SEC_E_LOGON_DENIED {
        AcceptContextError::Denied
    } else {
        AcceptContextError::NoAuthority
    }
}

/// A server context that has finished authentication. It may carry one
/// last token (the mutual-authentication answer) still owed to the
/// client.
#[verifier::reject_recursive_types(S)]
#[verifier::reject_recursive_types(E)]
#[verifier::reject_recursive_types(D)]
pub struct FinishedServerContext<S, E, D> {
    handle: ContextHandle,
    attributes: u32,
    token: Vec<u8>,
    expiry: i64,
    _marker: core::marker::PhantomData<(S, E, D)>,
}

/// A server context in the middle of the handshake: it always carries the
/// token that must be sent to the client before the next round.
#[verifier::reject_recursive_types(S)]
#[verifier::reject_recursive_types(E)]
#[verifier::reject_recursive_types(D)]
pub struct PendingServerContext<S, E, D> {
    handle: ContextHandle,
    attributes: u32,
    token: Vec<u8>,
    _marker: core::marker::PhantomData<(S, E, D)>,
}

/// What one successful server round yields.
#[verifier::reject_recursive_types(S)]
#[verifier::reject_recursive_types(E)]
#[verifier::reject_recursive_types(D)]
pub enum StepOk<S, E, D> {
    Continue(PendingServerContext<S, E, D>),
    Finished(FinishedServerContext<S, E, D>),
}

impl<S, E, D> FinishedServerContext<S, E, D> {
    #[verifier::type_invariant]
    spec fn wf(&self) -> bool {
        self.handle.is_live()
    }

    /// The attribute word the provider returned with the final round.
    pub closed spec fn spec_attributes(&self) -> u32 {
        self.attributes
    }

    /// The last output token (empty when nothing is left to send).
    pub closed spec fn spec_token(&self) -> Seq<u8> {
        self.token@
    }

    /// Identity of the native handle this context owns.
    pub closed spec fn spec_handle_id(&self) -> u64 {
        self.handle.spec_id()
    }

    /// When the context expires, as reported by the provider.
    pub closed spec fn spec_expiry(&self) -> i64 {
        self.expiry
    }

    pub fn attributes(&self) -> (r: u32)
        ensures
            r == self.spec_attributes(),
    {
        self.attributes
    }

    pub fn expiry(&self) -> (r: i64)
        ensures
            r == self.spec_expiry(),
    {
        self.expiry
    }

    /// Whether the provider confirmed mutual authentication.
    pub fn is_mutually_authenticated(&self) -> (r: bool)
        ensures
            r == has_flags(self.spec_attributes(), ASC_RET_MUTUAL_AUTH),
    {
        self.attributes & ASC_RET_MUTUAL_AUTH == ASC_RET_MUTUAL_AUTH
    }

    /// The final token to transmit, if the provider produced one. A
    /// zero-length token means "nothing left to send" and is reported as
    /// `None`.
    pub fn last_token(&self) -> (r: Option<&[u8]>)
        ensures
            self.spec_token().len() == 0 ==> r is None,
            self.spec_token().len() > 0 ==> (r matches Some(t) && t@ == self.spec_token()),
    {
        if self.token.len() == 0 {
            None
        } else {
            Some(self.token.as_slice())
        }
    }

    /// Release the native context handle. Consuming the context makes
    /// this the one release it will ever see.
    pub fn release(self) {
        proof {
            use_type_invariant(&self);
        }
        let FinishedServerContext { mut handle, .. } = self;
        handle.release();
    }

    fn retag<S2, E2, D2>(self) -> (r: FinishedServerContext<S2, E2, D2>)
        ensures
            r.spec_attributes() == self.spec_attributes(),
            r.spec_token() == self.spec_token(),
            r.spec_handle_id() == self.spec_handle_id(),
            r.spec_expiry() == self.spec_expiry(),
    {
        proof {
            use_type_invariant(&self);
        }
        let FinishedServerContext { handle, attributes, token, expiry, .. } = self;
        FinishedServerContext { handle, attributes, token, expiry, _marker: core::marker::PhantomData }
    }
}

impl<E, D> FinishedServerContext<MaybeSign, E, D> {
    /// Resolve the signing capability from the *returned* attribute word:
    /// the integrity bit decides, the offered flags play no part.
    pub fn check_signing(self) -> (r: Result<
        FinishedServerContext<CanSign, E, D>,
        FinishedServerContext<NoSigning, E, D>,
    >)
        ensures
            has_flags(self.spec_attributes(), <MaybeSign as SigningPolicy>::spec_return_flags())
                ==> (r matches Ok(c) && c.spec_attributes() == self.spec_attributes()
                && c.spec_token() == self.spec_token() && c.spec_handle_id()
                == self.spec_handle_id()),
            !has_flags(self.spec_attributes(), <MaybeSign as SigningPolicy>::spec_return_flags())
                ==> (r matches Err(c) && c.spec_attributes() == self.spec_attributes()
                && c.spec_token() == self.spec_token() && c.spec_handle_id()
                == self.spec_handle_id()),
    {
        if self.attributes & crate::flags::ASC_RET_INTEGRITY == crate::flags::ASC_RET_INTEGRITY {
            Ok(self.retag())
        } else {
            Err(self.retag())
        }
    }
}

impl<S, D> FinishedServerContext<S, MaybeEncrypt, D> {
    /// Resolve the encryption capability from the *returned* attribute
    /// word: the confidentiality bit decides.
    pub fn check_encryption(self) -> (r: Result<
        FinishedServerContext<S, CanEncrypt, D>,
        FinishedServerContext<S, NoEncryption, D>,
    >)
        ensures
            has_flags(self.spec_attributes(), <MaybeEncrypt as EncryptionPolicy>::spec_return_flags())
                ==> (r matches Ok(c) && c.spec_attributes() == self.spec_attributes()
                && c.spec_token() == self.spec_token() && c.spec_handle_id()
                == self.spec_handle_id()),
            !has_flags(self.spec_attributes(), <MaybeEncrypt as EncryptionPolicy>::spec_return_flags())
                ==> (r matches Err(c) && c.spec_attributes() == self.spec_attributes()
                && c.spec_token() == self.spec_token() && c.spec_handle_id()
                == self.spec_handle_id()),
    {
        if self.attributes & crate::flags::ASC_RET_CONFIDENTIALITY
            == crate::flags::ASC_RET_CONFIDENTIALITY {
            Ok(self.retag())
        } else {
            Err(self.retag())
        }
    }
}

impl<S, E> FinishedServerContext<S, E, OfferDelegate> {
    /// Resolve the delegation capability from the *returned* attribute
    /// word: the delegate bit decides. Only a delegation-capable context
    /// can impersonate the client.
    pub fn check_delegation(self) -> (r: Result<
        FinishedServerContext<S, E, CanDelegate>,
        FinishedServerContext<S, E, NoDelegation>,
    >)
        ensures
            has_flags(self.spec_attributes(), <OfferDelegate as DelegationPolicy>::spec_return_flags())
                ==> (r matches Ok(c) && c.spec_attributes() == self.spec_attributes()
                && c.spec_token() == self.spec_token() && c.spec_handle_id()
                == self.spec_handle_id()),
            !has_flags(self.spec_attributes(), <OfferDelegate as DelegationPolicy>::spec_return_flags())
                ==> (r matches Err(c) && c.spec_attributes() == self.spec_attributes()
                && c.spec_token() == self.spec_token() && c.spec_handle_id()
                == self.spec_handle_id()),
    {
        if self.attributes & crate::flags::ASC_RET_DELEGATE == crate::flags::ASC_RET_DELEGATE {
            Ok(self.retag())
        } else {
            Err(self.retag())
        }
    }
}

impl<S, E, D> PendingServerContext<S, E, D> {
    #[verifier::type_invariant]
    spec fn wf(&self) -> bool {
        self.handle.is_live() && self.token@.len() > 0
    }

    /// The attribute flags accumulated so far.
    pub closed spec fn spec_attributes(&self) -> u32 {
        self.attributes
    }

    /// The token that must be sent to the client before the next round.
    pub closed spec fn spec_token(&self) -> Seq<u8> {
        self.token@
    }

    /// Identity of the native handle this context owns.
    pub closed spec fn spec_handle_id(&self) -> u64 {
        self.handle.spec_id()
    }

    pub fn attributes(&self) -> (r: u32)
        ensures
            r == self.spec_attributes(),
    {
        self.attributes
    }

    /// The token owed to the client. A pending context always carries
    /// one; the classification of a continue-needed round guarantees it.
    pub fn next_token(&self) -> (r: &[u8])
        ensures
            r@ == self.spec_token(),
            r@.len() > 0,
    {
        proof {
            use_type_invariant(&*self);
        }
        self.token.as_slice()
    }

    /// Release the native context handle. Consuming the context makes
    /// this the one release it will ever see.
    pub fn release(self) {
        proof {
            use_type_invariant(&self);
        }
        let PendingServerContext { mut handle, .. } = self;
        handle.release();
    }
}

impl<S: SigningPolicy, E: EncryptionPolicy, D: DelegationPolicy> PendingServerContext<S, E, D> {
    /// The request-flag word every round of this handshake asks for.
    pub fn request_flags(&self) -> (r: u32)
        ensures
            r == spec_accept_request_flags::<S, E, D>(),
    {
        ASC_REQ_MUTUAL_AUTH | S::request_flags() | E::request_flags() | D::request_flags()
    }

    /// Classify the next native round, made with a live inbound-usable
    /// credential. The pending context is consumed, so rounds are
    /// strictly sequential; the native handle moves into the successor
    /// context, or is released here when the round failed.
    pub fn step<U: CredentialsUsage + InboundUsable>(
        self,
        cred: &Credentials<U>,
        outcome: AcceptOutcome,
    ) -> (r: Result<StepOk<S, E, D>, AcceptContextError>)
        requires
            cred.is_live(),
            accept_status_expected(outcome.status),
            outcome.status == SEC_I_CONTINUE_NEEDED ==> outcome.token@.len() > 0,
        ensures
            outcome.status == SEC_E_OK ==> (r matches Ok(s) && s matches StepOk::Finished(c)
                && c.spec_attributes() == outcome.attributes && c.spec_token() == outcome.token@
                && c.spec_handle_id() == self.spec_handle_id() && c.spec_expiry()
                == outcome.expiry),
            outcome.status == SEC_I_CONTINUE_NEEDED ==> (r matches Ok(s) && s matches StepOk::Continue(
                p,
            ) && p.spec_attributes() == outcome.attributes && p.spec_token() == outcome.token@
                && p.spec_handle_id() == self.spec_handle_id()),
            outcome.status != SEC_E_OK && outcome.status != SEC_I_CONTINUE_NEEDED ==> r == Result::<
                StepOk<S, E, D>,
                AcceptContextError,
            >::Err(spec_accept_error(outcome.status)),
    {
        proof {
            use_type_invariant(&self);
        }
        let PendingServerContext { handle, .. } = self;
        classify_accept(handle, outcome)
    }
}

/// Collects what a server handshake will offer and request before its
/// first round.
#[verifier::reject_recursive_types(S)]
#[verifier::reject_recursive_types(E)]
#[verifier::reject_recursive_types(D)]
pub struct ServerBuilder<S, E, D> {
    channel_binding: Option<Vec<u8>>,
    _marker: core::marker::PhantomData<(S, E, D)>,
}

impl ServerBuilder<NoSigning, NoEncryption, NoDelegation> {
    /// Start a server handshake with nothing offered.
    pub fn new() -> (r: ServerBuilder<NoSigning, NoEncryption, NoDelegation>)
        ensures
            r.spec_channel_binding() is None,
    {
        ServerBuilder { channel_binding: None, _marker: core::marker::PhantomData }
    }
}

impl<S, E, D> ServerBuilder<S, E, D> {
    /// The channel-binding bytes folded into the handshake, if any. An
    /// empty binding is distinct from no binding.
    pub closed spec fn spec_channel_binding(&self) -> Option<Seq<u8>> {
        match self.channel_binding {
            Some(b) => Some(b@),
            None => None,
        }
    }

    fn retag<S2, E2, D2>(self) -> (r: ServerBuilder<S2, E2, D2>)
        ensures
            r.spec_channel_binding() == self.spec_channel_binding(),
    {
        let ServerBuilder { channel_binding, .. } = self;
        ServerBuilder { channel_binding, _marker: core::marker::PhantomData }
    }

    /// Fold the given channel-binding bytes into the handshake; `None`
    /// removes a binding.
    pub fn with_channel_binding(self, binding: Option<Vec<u8>>) -> (r: ServerBuilder<S, E, D>)
        ensures
            r.spec_channel_binding() == (match binding {
                Some(b) => Some(b@),
                None => None,
            }),
    {
        ServerBuilder { channel_binding: binding, ..self }
    }

    /// Pull the binding bytes from an external channel; the exact effect
    /// on the builder is [`ServerBuilder::with_channel_binding`]'s.
    pub fn bind_to_channel<C: Channel>(self, channel: &C) -> (r: Result<
        ServerBuilder<S, E, D>,
        C::Error,
    >) {
        match channel.channel_bindings() {
            Ok(binding) => Ok(self.with_channel_binding(binding)),
            Err(e) => Err(e),
        }
    }
}

impl<E, D> ServerBuilder<NoSigning, E, D> {
    /// Offer the integrity capability to the client.
    pub fn offer_signing(self) -> (r: ServerBuilder<MaybeSign, E, D>)
        ensures
            r.spec_channel_binding() == self.spec_channel_binding(),
    {
        self.retag()
    }
}

impl<S, D> ServerBuilder<S, NoEncryption, D> {
    /// Offer the confidentiality capability to the client.
    pub fn offer_encryption(self) -> (r: ServerBuilder<S, MaybeEncrypt, D>)
        ensures
            r.spec_channel_binding() == self.spec_channel_binding(),
    {
        self.retag()
    }
}

impl<S, E> ServerBuilder<S, E, NoDelegation> {
    /// Ask the client for unconstrained delegation.
    pub fn request_delegation(self) -> (r: ServerBuilder<S, E, OfferDelegate>)
        ensures
            r.spec_channel_binding() == self.spec_channel_binding(),
    {
        self.retag()
    }
}

impl<S: SigningPolicy, E: EncryptionPolicy, D: DelegationPolicy> ServerBuilder<S, E, D> {
    /// The request-flag word the first round will ask for.
    pub fn request_flags(&self) -> (r: u32)
        ensures
            r == spec_accept_request_flags::<S, E, D>(),
    {
        ASC_REQ_MUTUAL_AUTH | S::request_flags() | E::request_flags() | D::request_flags()
    }

    /// Classify the first native round, made with a live inbound-usable
    /// credential on the client's first token. On success the context
    /// handle the provider established is taken over; a failed first
    /// round owns no handle here.
    pub fn initialize<U: CredentialsUsage + InboundUsable>(
        self,
        cred: &Credentials<U>,
        outcome: AcceptOutcome,
    ) -> (r: Result<StepOk<S, E, D>, AcceptContextError>)
        requires
            cred.is_live(),
            accept_status_expected(outcome.status),
            outcome.status == SEC_I_CONTINUE_NEEDED ==> outcome.token@.len() > 0,
            outcome.status == SEC_E_OK || outcome.status == SEC_I_CONTINUE_NEEDED
                ==> outcome.context_id is Some,
        ensures
            outcome.status == SEC_E_OK ==> (r matches Ok(s) && s matches StepOk::Finished(c)
                && c.spec_attributes() == outcome.attributes && c.spec_token() == outcome.token@
                && Some(c.spec_handle_id()) == outcome.context_id && c.spec_expiry()
                == outcome.expiry),
            outcome.status == SEC_I_CONTINUE_NEEDED ==> (r matches Ok(s) && s matches StepOk::Continue(
                p,
            ) && p.spec_attributes() == outcome.attributes && p.spec_token() == outcome.token@
                && Some(p.spec_handle_id()) == outcome.context_id),
            outcome.status != SEC_E_OK && outcome.status != SEC_I_CONTINUE_NEEDED ==> r == Result::<
                StepOk<S, E, D>,
                AcceptContextError,
            >::Err(spec_accept_error(outcome.status)),
    {
        if outcome.status != SEC_E_OK && outcome.status != SEC_I_CONTINUE_NEEDED {
            return Err(accept_error(outcome.status));
        }
        let id = match outcome.context_id {
            Some(id) => id,
            None => {
                proof {
                    assert(false);
                }
                0
            },
        };
        let handle = ContextHandle::new(id);
        classify_accept(handle, outcome)
    }
}

/// Exec mirror of [`spec_accept_error`].
fn accept_error(status: u32) -> (r: AcceptContextError)
    ensures
        r == spec_accept_error(status),
{
    if status == SEC_E_INTERNAL_ERROR {
        AcceptContextError::Internal
    } else if status == SEC_E_INVALID_HANDLE {
        AcceptContextError::InvalidHandle
    } else if status == SEC_E_INVALID_TOKEN {
        AcceptContextError::InvalidToken
    } else if status == SEC_E_LOGON_DENIED {
        AcceptContextError::Denied
    } else {
        AcceptContextError::NoAuthority
    }
}

/// Shared classification of one server round's report, with an already
/// live context handle.
fn classify_accept<S, E, D>(handle: ContextHandle, outcome: AcceptOutcome) -> (r: Result<
    StepOk<S, E, D>,
    AcceptContextError,
>)
    requires
        handle.is_live(),
        outcome.status == SEC_I_CONTINUE_NEEDED ==> outcome.token@.len() > 0,
    ensures
        outcome.status == SEC_E_OK ==> (r matches Ok(s) && s matches StepOk::Finished(c)
            && c.spec_attributes() == outcome.attributes && c.spec_token() == outcome.token@
            && c.spec_handle_id() == handle.spec_id() && c.spec_expiry() == outcome.expiry),
        outcome.status == SEC_I_CONTINUE_NEEDED ==> (r matches Ok(s) && s matches StepOk::Continue(
            p,
        ) && p.spec_attributes() == outcome.attributes && p.spec_token() == outcome.token@
            && p.spec_handle_id() == handle.spec_id()),
        outcome.status != SEC_E_OK && outcome.status != SEC_I_CONTINUE_NEEDED ==> r == Result::<
            StepOk<S, E, D>,
            AcceptContextError,
        >::Err(spec_accept_error(outcome.status)),
{
    let AcceptOutcome { status, attributes, token, expiry, .. } = outcome;
    if status == SEC_E_OK {
        Ok(
            StepOk::Finished(
                FinishedServerContext {
                    handle,
                    attributes,
                    token,
                    expiry,
                    _marker: core::marker::PhantomData,
                },
            ),
        )
    } else if status == SEC_I_CONTINUE_NEEDED {
        Ok(
            StepOk::Continue(
                PendingServerContext { handle, attributes, token, _marker: core::marker::PhantomData },
            ),
        )
    } else {
        let mut handle = handle;
        handle.release();
        Err(accept_error(status))
    }
}

} // verus!
