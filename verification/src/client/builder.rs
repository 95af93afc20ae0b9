//! Pre-negotiation setup of a client handshake.
//!
//! The builder collects the target principal, the capability requests, an
//! optional lifetime cap and optional channel-binding bytes; each request
//! moves the corresponding capability marker from "no" to "maybe". The
//! first native round then consumes the builder, and its report is
//! classified exactly as every later round's.
use vstd::prelude::*;

use crate::channel_bindings::Channel;
use crate::client::typestate::{DelegationPolicy, EncryptionPolicy, SignPolicy};
use crate::client::{
    classify_round, gss_lifetime, spec_gss_lifetime, spec_request_flags,
    spec_sspi_request_flags, round_completed, round_continues, round_failed, RoundResult, StepOut,
};
use crate::context_handle::ContextHandle;
use crate::cred::{Credentials, CredentialsUsage, OutboundUsable};
use crate::error::Error;
use crate::flags::{GSS_C_MUTUAL_FLAG, ISC_REQ_MUTUAL_AUTH};
use crate::typestate::{
    DeniedSigning, MaybeDelegation, MaybeEncryption, MaybeSigning, NoDelegation, NoEncryption,
    NoSigning,
};

verus! {

/// Collects what the first round of a client handshake will ask for.
#[verifier::reject_recursive_types(S)]
#[verifier::reject_recursive_types(E)]
#[verifier::reject_recursive_types(D)]
pub struct ClientBuilder<S, E, D> {
    principal: Option<String>,
    requested_duration: Option<u64>,
    channel_binding: Option<Vec<u8>>,
    _marker: core::marker::PhantomData<(S, E, D)>,
}

impl ClientBuilder<NoSigning, NoEncryption, NoDelegation> {
    /// Start a handshake towards `target_principal` (or the peer's default
    /// acceptor principal) with no capability requested.
    pub fn new(target_principal: Option<String>) -> (r: ClientBuilder<
        NoSigning,
        NoEncryption,
        NoDelegation,
    >)
        ensures
            r.spec_principal() == (match target_principal {
                Some(p) => Some(p@),
                None => None,
            }),
            r.spec_requested_duration() is None,
            r.spec_channel_binding() is None,
    {
        ClientBuilder {
            principal: target_principal,
            requested_duration: None,
            channel_binding: None,
            _marker: core::marker::PhantomData,
        }
    }
}

impl<S, E, D> ClientBuilder<S, E, D> {
    /// The target principal this handshake is aimed at, if one was named.
    pub closed spec fn spec_principal(&self) -> Option<Seq<char>> {
        match self.principal {
            Some(p) => Some(p@),
            None => None,
        }
    }

    /// The requested lifetime cap in seconds, if any.
    pub closed spec fn spec_requested_duration(&self) -> Option<u64> {
        self.requested_duration
    }

    /// The channel-binding bytes folded into every round, if any. An
    /// empty binding is distinct from no binding.
    pub closed spec fn spec_channel_binding(&self) -> Option<Seq<u8>> {
        match self.channel_binding {
            Some(b) => Some(b@),
            None => None,
        }
    }

    fn retag<S2, E2, D2>(self) -> (r: ClientBuilder<S2, E2, D2>)
        ensures
            r.spec_principal() == self.spec_principal(),
            r.spec_requested_duration() == self.spec_requested_duration(),
            r.spec_channel_binding() == self.spec_channel_binding(),
    {
        let ClientBuilder { principal, requested_duration, channel_binding, .. } = self;
        ClientBuilder {
            principal,
            requested_duration,
            channel_binding,
            _marker: core::marker::PhantomData,
        }
    }

    /// Cap the requested context lifetime. The provider may still grant
    /// less; without a cap, "as long as possible" is requested.
    pub fn request_duration(self, seconds: u64) -> (r: ClientBuilder<S, E, D>)
        ensures
            r.spec_principal() == self.spec_principal(),
            r.spec_requested_duration() == Some(seconds),
            r.spec_channel_binding() == self.spec_channel_binding(),
    {
        ClientBuilder { requested_duration: Some(seconds), ..self }
    }

    /// Fold the given channel-binding bytes into every handshake round;
    /// `None` removes a binding.
    pub fn with_channel_binding(self, binding: Option<Vec<u8>>) -> (r: ClientBuilder<S, E, D>)
        ensures
            r.spec_principal() == self.spec_principal(),
            r.spec_requested_duration() == self.spec_requested_duration(),
            r.spec_channel_binding() == (match binding {
                Some(b) => Some(b@),
                None => None,
            }),
    {
        ClientBuilder { channel_binding: binding, ..self }
    }

    /// Pull the binding bytes from an external channel and fold them into
    /// the handshake; a channel without a binding leaves the builder
    /// unbound. What the channel reports is taken as it comes; the exact
    /// effect on the builder is [`ClientBuilder::with_channel_binding`]'s.
    pub fn bind_to_channel<C: Channel>(self, channel: &C) -> (r: Result<
        ClientBuilder<S, E, D>,
        C::Error,
    >)
        ensures
            r matches Ok(b) ==> b.spec_principal() == self.spec_principal()
                && b.spec_requested_duration() == self.spec_requested_duration(),
    {
        match channel.channel_bindings() {
            Ok(binding) => Ok(self.with_channel_binding(binding)),
            Err(e) => Err(e),
        }
    }
}

impl<E, D> ClientBuilder<NoSigning, E, D> {
    /// Ask the provider for the integrity capability.
    pub fn request_signing(self) -> (r: ClientBuilder<MaybeSigning, E, D>)
        ensures
            r.spec_principal() == self.spec_principal(),
            r.spec_requested_duration() == self.spec_requested_duration(),
            r.spec_channel_binding() == self.spec_channel_binding(),
    {
        self.retag()
    }

    /// Refuse the integrity capability outright.
    pub fn deny_signing(self) -> (r: ClientBuilder<DeniedSigning, E, D>)
        ensures
            r.spec_principal() == self.spec_principal(),
            r.spec_requested_duration() == self.spec_requested_duration(),
            r.spec_channel_binding() == self.spec_channel_binding(),
    {
        self.retag()
    }
}

impl<S, D> ClientBuilder<S, NoEncryption, D> {
    /// Ask the provider for the confidentiality capability.
    pub fn request_encryption(self) -> (r: ClientBuilder<S, MaybeEncryption, D>)
        ensures
            r.spec_principal() == self.spec_principal(),
            r.spec_requested_duration() == self.spec_requested_duration(),
            r.spec_channel_binding() == self.spec_channel_binding(),
    {
        self.retag()
    }
}

impl<S, E> ClientBuilder<S, E, NoDelegation> {
    /// Allow the provider to delegate the client's credentials.
    pub fn allow_delegation(self) -> (r: ClientBuilder<S, E, MaybeDelegation>)
        ensures
            r.spec_principal() == self.spec_principal(),
            r.spec_requested_duration() == self.spec_requested_duration(),
            r.spec_channel_binding() == self.spec_channel_binding(),
    {
        self.retag()
    }
}

impl<S: SignPolicy, E: EncryptionPolicy, D: DelegationPolicy> ClientBuilder<S, E, D> {
    /// The request-flag word the first round will ask for.
    pub fn request_flags(&self) -> (r: u32)
        ensures
            r == spec_request_flags::<S, E, D>(),
    {
        GSS_C_MUTUAL_FLAG | S::requested_flags() | E::requested_flags() | D::requested_flags()
    }

    /// The same request in the SSPI encoding.
    pub fn sspi_request_flags(&self) -> (r: u32)
        ensures
            r == spec_sspi_request_flags::<S, E, D>(),
    {
        let mutual: u32 = if S::removes_mutual_auth() {
            0
        } else {
            ISC_REQ_MUTUAL_AUTH
        };
        mutual | S::sspi_requested_flags() | E::sspi_requested_flags()
            | D::sspi_requested_flags()
    }

    /// The lifetime word to hand the provider on the first round.
    pub fn requested_lifetime(&self) -> (r: u32)
        ensures
            r == spec_gss_lifetime(self.spec_requested_duration()),
    {
        gss_lifetime(&self.requested_duration)
    }

    /// Classify the first native round, made with a live outbound-usable
    /// credential. On success the context handle the provider established
    /// is taken over (the caller must report it); a failed first round
    /// owns no handle here — the orphan the provider may have left is
    /// named by [`crate::client::abandoned_context`].
    pub fn initialize<U: CredentialsUsage + OutboundUsable>(
        self,
        cred: &Credentials<U>,
        outcome: RoundResult,
    ) -> (r: Result<StepOut<S, E, D>, Error>)
        requires
            cred.is_live(),
            round_continues(outcome.major) ==> outcome.token@.len() > 0,
            !round_failed(outcome.major) ==> outcome.context_id is Some,
        ensures
            round_completed(outcome.major) ==> (r matches Ok(s) && s matches StepOut::Finished(c)
                && c.spec_attributes() == outcome.attributes && c.spec_token() == outcome.token@
                && Some(c.spec_handle_id()) == outcome.context_id),
            !round_completed(outcome.major) && round_continues(outcome.major) ==> (r matches Ok(s)
                && s matches StepOut::Pending(p) && p.spec_attributes() == outcome.attributes
                && p.spec_token() == outcome.token@ && Some(p.spec_handle_id())
                == outcome.context_id && p.spec_principal() == self.spec_principal()
                && p.spec_channel_binding() == self.spec_channel_binding()
                && p.spec_requested_duration() == self.spec_requested_duration()),
            round_failed(outcome.major) ==> (r matches Err(e) && (outcome.minor != 0 ==> (
            e matches Error::Mechanism(c) && c.spec_code() == outcome.minor)) && (outcome.minor
                == 0 ==> (e matches Error::Gss(c) && c.spec_code() == outcome.major))),
    {
        let ClientBuilder { principal, requested_duration, channel_binding, .. } = self;
        if outcome.major != crate::flags::GSS_S_COMPLETE && outcome.major
            & crate::flags::GSS_S_CONTINUE_NEEDED == 0 {
            if let Some(err) = Error::mechanism(outcome.minor) {
                return Err(err);
            }
            let gss = Error::gss(outcome.major);
            return Err(gss.unwrap());
        }
        let id = match outcome.context_id {
            Some(id) => id,
            None => {
                proof {
                    assert(false);
                }
                0
            },
        };
        let handle = ContextHandle::new(id);
        classify_round(handle, principal, requested_duration, channel_binding, outcome)
    }
}

} // verus!
