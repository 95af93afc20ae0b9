//! Capability-checked negotiation engine for the Kerberos/SPNEGO ("Negotiate")
//! mechanism.
//!
//! The crate drives the multi-round handshake of a native security provider
//! (GSSAPI on Unix, SSPI on Windows) without re-implementing any of its
//! cryptography: callers hand the provider's raw results (status words,
//! attribute masks, token bytes) to the library, and the library makes every
//! decision — how to classify a round, which capabilities were actually
//! granted, which error to surface, when a native handle may be released.
//! Capability markers on the context types make it impossible to call `sign`,
//! `encrypt` or `impersonate_client` on a context that has not proved the
//! corresponding capability.
use vstd::prelude::*;
use vstd::string::StrSliceExecFns;

pub mod buffer;
pub mod bytes;
pub mod channel_bindings;
pub mod client;
pub mod context_handle;
pub mod cred;
pub mod credentials;
pub mod error;
pub mod flags;
pub mod server;
pub mod settings;
pub mod sign;
pub mod sign_encrypt;
pub mod step;
pub mod typestate;

verus! {

/// A principal name as the SSPI side wants it: UTF-16 code units with a
/// terminating zero. Characters outside the basic multilingual plane
/// have no single code unit and are excluded; a caller must check before
/// converting.
pub fn to_wide(s: &str) -> (r: Vec<u16>)
    requires
        forall|i: int| 0 <= i < s@.len() ==> (s@[i] as u32) <= 0xFFFF,
    ensures
        r@.len() == s@.len() + 1,
        forall|i: int| 0 <= i < s@.len() ==> r@[i] == (s@[i] as u32) as u16,
        r@[s@.len() as int] == 0u16,
{
    let len = s.unicode_len();
    let mut out: Vec<u16> = Vec::new();
    let mut i: usize = 0;
    while i < len
        invariant
            i <= len,
            len == s@.len(),
            forall|j: int| 0 <= j < s@.len() ==> (s@[j] as u32) <= 0xFFFF,
            out@.len() == i,
            forall|j: int| 0 <= j < i ==> out@[j] == (s@[j] as u32) as u16,
        decreases len - i,
    {
        let c = s.get_char(i);
        let code = c as u32;
        out.push(code as u16);
        i = i + 1;
    }
    out.push(0u16);
    out
}

} // verus!
