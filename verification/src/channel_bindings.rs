//! External source of channel-binding bytes.
//!
//! A secure transport (say a TLS stream) can expose a byte string that
//! identifies the channel's endpoint; folding it into the handshake ties
//! the security context to that channel and defeats credential relay.
//! Producing the bytes is the transport's business and carries no
//! contract here; what the builder then does with them is stated exactly
//! on `with_channel_binding`.
use vstd::prelude::*;

verus! {

/// Anything that can report optional binding bytes for the secure channel
/// it stands for, or fail with its own error.
pub trait Channel {
    type Error;

    /// `Ok(None)` means the channel offers no binding, which is distinct
    /// from an empty binding.
    fn channel_bindings(&self) -> Result<Option<Vec<u8>>, Self::Error>;
}

} // verus!
