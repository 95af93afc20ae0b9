//! Server-side request settings for the SSPI backend.
//!
//! The settings are one request-flag word plus the target data
//! representation; every mutation is a single, fully specified bit
//! operation, so what a server asks of the provider is always exactly
//! known.
use vstd::prelude::*;

use crate::flags::{
    ASC_REQ_ALLOCATE_MEMORY, ASC_REQ_CONFIDENTIALITY, ASC_REQ_CONNECTION, ASC_REQ_DELEGATE,
    ASC_REQ_INTEGRITY, ASC_REQ_REPLAY_DETECT, ASC_REQ_SEQUENCE_DETECT, has_flags,
};

verus! {

/// How the provider should lay out data for the target: the machine's
/// native representation or the network standard.
#[derive(Clone, Copy, Debug, PartialEq, Eq, Structural)]
pub enum TargetDataRep {
    Native,
    Network,
}

/// The request word and data representation one server handshake asks for.
#[derive(Clone, Copy, Debug, PartialEq, Eq, Structural)]
pub struct ServerSettings {
    pub datarep: TargetDataRep,
    pub bitflags: u32,
}

/// The request bits a server asks for by default: a connection-style
/// context with confidentiality, integrity, and replay and sequence
/// detection.
pub open spec fn spec_default_server_flags() -> u32 {
    ASC_REQ_CONNECTION | ASC_REQ_CONFIDENTIALITY | ASC_REQ_INTEGRITY | ASC_REQ_REPLAY_DETECT
        | ASC_REQ_SEQUENCE_DETECT
}

impl Default for ServerSettings {
    fn default() -> (r: Self)
        ensures
            r.bitflags == spec_default_server_flags(),
            r.datarep == TargetDataRep::Network,
    {
        ServerSettings {
            datarep: TargetDataRep::Network,
            bitflags: ASC_REQ_CONNECTION | ASC_REQ_CONFIDENTIALITY | ASC_REQ_INTEGRITY
                | ASC_REQ_REPLAY_DETECT | ASC_REQ_SEQUENCE_DETECT,
        }
    }
}

impl ServerSettings {
    /// Whether the provider is asked to allocate the output buffers.
    pub open spec fn spec_lets_sspi_allocate(self) -> bool {
        has_flags(self.bitflags, ASC_REQ_ALLOCATE_MEMORY)
    }

    /// Ask the client for unconstrained delegation. Only meaningful for
    /// Kerberos; prefer constrained delegation where possible, which
    /// needs no request bit.
    pub fn request_unconstrained_delegation(self) -> (r: Self)
        ensures
            r.bitflags == self.bitflags | ASC_REQ_DELEGATE,
            r.datarep == self.datarep,
    {
        ServerSettings { datarep: self.datarep, bitflags: self.bitflags | ASC_REQ_DELEGATE }
    }

    /// Let the provider allocate the output token buffers instead of
    /// handing it a self-allocated pool.
    pub fn let_sspi_allocate(self) -> (r: Self)
        ensures
            r.bitflags == self.bitflags | ASC_REQ_ALLOCATE_MEMORY,
            r.datarep == self.datarep,
    {
        ServerSettings { datarep: self.datarep, bitflags: self.bitflags | ASC_REQ_ALLOCATE_MEMORY }
    }

    /// Whether the provider was asked to allocate the output buffers.
    pub fn lets_sspi_allocate(self) -> (r: bool)
        ensures
            r == self.spec_lets_sspi_allocate(),
    {
        self.bitflags & ASC_REQ_ALLOCATE_MEMORY == ASC_REQ_ALLOCATE_MEMORY
    }
}

} // verus!
