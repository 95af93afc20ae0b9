//! Message protection on a finished server context, SSPI style.
//!
//! The SSPI provider computes protection in place over a three-part
//! buffer — header, message, trailer — and reports each part's actual
//! length; the wire message is their concatenation. Unwrapping runs the
//! other way: the provider decrypts the stream in place and reports where
//! the payload starts and how long it is. Both directions of that framing
//! are this library's own computation, specified exactly, and
//! [`lemma_wrap_round_trip`] proves that extraction inverts assembly for
//! every header, message and trailer.
//!
//! As on the client side, the capability markers gate the operations:
//! signing and verifying demand `CanSign`, encrypting additionally
//! `CanEncrypt`.
use vstd::prelude::*;

use crate::flags::{
    SECQOP_WRAP_NO_ENCRYPT, SEC_E_INVALID_TOKEN, SEC_E_MESSAGE_ALTERED, SEC_E_OK,
};
use crate::bytes::{append_bytes, slice_to_vec};
use crate::server::FinishedServerContext;
use crate::server::typestate::{CanEncrypt, CanSign};
use crate::sign_encrypt::{Altered, Plaintext};

verus! {

/// A provider-computed signature over a message, as one wire blob.
pub struct Signature {
    bytes: Vec<u8>,
}

impl Signature {
    pub closed spec fn spec_bytes(&self) -> Seq<u8> {
        self.bytes@
    }

    /// Wrap existing signature bytes.
    pub fn new(sig: &[u8]) -> (r: Signature)
        ensures
            r.spec_bytes() == sig@,
    {
        Signature { bytes: slice_to_vec(sig) }
    }

    pub fn as_slice(&self) -> (r: &[u8])
        ensures
            r@ == self.spec_bytes(),
    {
        self.bytes.as_slice()
    }
}

/// A provider-encrypted message, as one wire blob.
pub struct EncryptedMessage {
    bytes: Vec<u8>,
}

impl EncryptedMessage {
    pub closed spec fn spec_bytes(&self) -> Seq<u8> {
        self.bytes@
    }

    pub fn as_slice(&self) -> (r: &[u8])
        ensures
            r@ == self.spec_bytes(),
    {
        self.bytes.as_slice()
    }
}

/// A failed protection call, carrying the provider's raw status word.
#[derive(Clone, Copy, Debug, PartialEq, Eq, Structural)]
pub struct SspiError {
    status: u32,
}

impl SspiError {
    pub closed spec fn spec_status(&self) -> u32 {
        self.status
    }

    pub fn status(&self) -> (r: u32)
        ensures
            r == self.spec_status(),
    {
        self.status
    }
}

/// The raw report of one `EncryptMessage` call: the status and the three
/// buffer parts, each already cut to the length the provider reported.
pub struct EncryptOutcome {
    /// The call's security status word.
    pub status: u32,
    /// The protection header the provider wrote.
    pub header: Vec<u8>,
    /// The message part (the payload, protected in place).
    pub data: Vec<u8>,
    /// The padding trailer the provider wrote.
    pub trailer: Vec<u8>,
}

/// The raw report of one `DecryptMessage` call on a wrapped stream: the
/// status, the quality-of-protection word, the in-place decrypted buffer
/// and where the provider says the payload stands in it.
pub struct DecryptOutcome {
    /// The call's security status word.
    pub status: u32,
    /// The quality of protection the sender used.
    pub qop: u32,
    /// The whole stream buffer after in-place decryption.
    pub buffer: Vec<u8>,
    /// Offset of the payload within the buffer.
    pub header_length: usize,
    /// Length of the payload.
    pub data_length: usize,
}

/// The statuses the provider contract allows on unwrapping a message a
/// peer protected: success, an altered message, or an invalid token.
/// Anything else is a contract breach.
pub open spec fn decrypt_status_expected(status: u32) -> bool {
    status == SEC_E_OK || status == SEC_E_MESSAGE_ALTERED || status == SEC_E_INVALID_TOKEN
}

/// The wire form of a protected message: header, payload, trailer, in
/// that order.
pub fn wrapped_message(header: &[u8], data: &[u8], trailer: &[u8]) -> (r: Vec<u8>)
    ensures
        r@ == header@ + data@ + trailer@,
{
    let mut out: Vec<u8> = Vec::new();
    append_bytes(&mut out, header);
    append_bytes(&mut out, data);
    append_bytes(&mut out, trailer);
    proof {
        assert(out@ =~= header@ + data@ + trailer@);
    }
    out
}

/// The payload of a decrypted stream: `data_length` bytes starting at
/// `header_length`.
pub fn extract_payload(buffer: &[u8], header_length: usize, data_length: usize) -> (r: Vec<u8>)
    requires
        header_length + data_length <= buffer@.len(),
    ensures
        r@ == buffer@.subrange(header_length as int, header_length + data_length),
{
    let n = buffer.len();
    let mut out: Vec<u8> = Vec::new();
    let mut i: usize = 0;
    while i < data_length
        invariant
            i <= data_length,
            header_length + data_length <= buffer@.len(),
            n == buffer@.len(),
            out@ == buffer@.subrange(header_length as int, header_length + i),
        decreases data_length - i,
    {
        proof {
            assert(header_length + i < n);
        }
        out.push(buffer[header_length + i]);
        proof {
            assert(out@ =~= buffer@.subrange(header_length as int, header_length + i + 1));
        }
        i = i + 1;
    }
    out
}

/// Law: extracting the payload back out of an assembled wire message
/// yields exactly the message that went in, for every header, message
/// and trailer. This is the round trip of the framing this library
/// computes; the provider's cryptographic round trip sits beneath it.
pub proof fn lemma_wrap_round_trip(header: Seq<u8>, data: Seq<u8>, trailer: Seq<u8>)
    ensures
        (header + data + trailer).subrange(
            header.len() as int,
            header.len() + data.len() as int,
        ) == data,
{
    assert((header + data + trailer).subrange(
        header.len() as int,
        header.len() + data.len() as int,
    ) =~= data);
}

impl<E, D> FinishedServerContext<CanSign, E, D> {
    /// Classify an `EncryptMessage` call made with the no-encryption
    /// quality of protection: the assembled signature blob, or the
    /// provider's status.
    pub fn sign_message(&self, outcome: EncryptOutcome) -> (r: Result<Signature, SspiError>)
        ensures
            outcome.status == SEC_E_OK ==> (r matches Ok(s) && s.spec_bytes() == outcome.header@
                + outcome.data@ + outcome.trailer@),
            outcome.status != SEC_E_OK ==> (r matches Err(e) && e.spec_status()
                == outcome.status),
    {
        if outcome.status == SEC_E_OK {
            let bytes = wrapped_message(
                outcome.header.as_slice(),
                outcome.data.as_slice(),
                outcome.trailer.as_slice(),
            );
            Ok(Signature { bytes })
        } else {
            Err(SspiError { status: outcome.status })
        }
    }

    /// Classify a `DecryptMessage` call on a peer's wrapped stream. The
    /// provider contract allows exactly two failures — message altered,
    /// invalid token — and both mean [`Altered`]; whether
    /// confidentiality had actually been applied is read off the
    /// quality-of-protection word.
    pub fn verify_message(&self, outcome: DecryptOutcome) -> (r: Result<Plaintext, Altered>)
        requires
            decrypt_status_expected(outcome.status),
            outcome.status == SEC_E_OK ==> outcome.header_length + outcome.data_length
                <= outcome.buffer@.len(),
        ensures
            outcome.status == SEC_E_OK ==> (r matches Ok(p) && p.spec_bytes()
                == outcome.buffer@.subrange(
                outcome.header_length as int,
                outcome.header_length + outcome.data_length,
            ) && p.spec_was_encrypted() == (outcome.qop != SECQOP_WRAP_NO_ENCRYPT)),
            outcome.status != SEC_E_OK ==> r == Result::<Plaintext, Altered>::Err(Altered),
    {
        if outcome.status == SEC_E_OK {
            let payload = extract_payload(
                outcome.buffer.as_slice(),
                outcome.header_length,
                outcome.data_length,
            );
            Ok(Plaintext::new(payload, outcome.qop != SECQOP_WRAP_NO_ENCRYPT))
        } else {
            Err(Altered)
        }
    }
}

impl<D> FinishedServerContext<CanSign, CanEncrypt, D> {
    /// Classify an `EncryptMessage` call made with full protection: the
    /// assembled ciphertext blob, or the provider's status.
    pub fn encrypt_message(&self, outcome: EncryptOutcome) -> (r: Result<
        EncryptedMessage,
        SspiError,
    >)
        ensures
            outcome.status == SEC_E_OK ==> (r matches Ok(s) && s.spec_bytes() == outcome.header@
                + outcome.data@ + outcome.trailer@),
            outcome.status != SEC_E_OK ==> (r matches Err(e) && e.spec_status()
                == outcome.status),
    {
        if outcome.status == SEC_E_OK {
            let bytes = wrapped_message(
                outcome.header.as_slice(),
                outcome.data.as_slice(),
                outcome.trailer.as_slice(),
            );
            Ok(EncryptedMessage { bytes })
        } else {
            Err(SspiError { status: outcome.status })
        }
    }
}

} // verus!
