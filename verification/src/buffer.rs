//! Ownership model of the provider's token buffers.
//!
//! The SSPI backend knows two incompatible allocation disciplines for the
//! output token: a pool this library allocates itself and frees itself,
//! or buffers the provider allocates and which must be given back to the
//! provider, one by one, then the array. The two are one tagged variant
//! here — never a raw union — selected at construction time from the
//! server settings, and each variant's release path is a separate,
//! separately specified operation that is permitted exactly once.
use vstd::prelude::*;

use crate::bytes::{append_bytes, push_le32, spec_le32};
use crate::flags::{SECBUFFER_READONLY, SECBUFFER_TOKEN};
use crate::settings::ServerSettings;

verus! {

/// An input token did not fit the provider's 32-bit buffer-length field.
#[derive(Clone, Copy, Debug, PartialEq, Eq, Structural)]
pub struct TokenTooLong;

/// The length-and-type descriptor of one provider buffer.
#[derive(Clone, Copy, Debug, PartialEq, Eq, Structural)]
pub struct SecBufferShape {
    pub length: u32,
    pub buffer_type: u32,
}

/// Descriptor for handing a caller-owned, read-only byte slice to the
/// provider. The provider must not write through it, so it carries the
/// read-only marker bit beside the token type.
pub struct ReadOnlySecBuffer {
    buffer: SecBufferShape,
}

impl ReadOnlySecBuffer {
    pub closed spec fn spec_buffer(&self) -> SecBufferShape {
        self.buffer
    }

    /// Describe `ro` as a read-only token buffer. Fails exactly when the
    /// slice is longer than the provider's 32-bit length field can say.
    pub fn from_slice(ro: &[u8]) -> (r: Result<ReadOnlySecBuffer, TokenTooLong>)
        ensures
            ro@.len() > u32::MAX ==> r is Err,
            ro@.len() <= u32::MAX ==> (r matches Ok(b) && b.spec_buffer().length == ro@.len()
                && b.spec_buffer().buffer_type == SECBUFFER_TOKEN | SECBUFFER_READONLY),
    {
        if ro.len() > u32::MAX as usize {
            Err(TokenTooLong)
        } else {
            Ok(
                ReadOnlySecBuffer {
                    buffer: SecBufferShape {
                        length: ro.len() as u32,
                        buffer_type: SECBUFFER_TOKEN | SECBUFFER_READONLY,
                    },
                },
            )
        }
    }

    /// The descriptor, writable so it can stand in the provider's buffer
    /// array.
    pub fn buffer_mut(&mut self) -> (r: &mut SecBufferShape)
        ensures
            *r == old(self).spec_buffer(),
            final(self).spec_buffer() == *final(r),
    {
        &mut self.buffer
    }
}

/// The self-allocated output pool: this library's own bytes, freed by
/// this library, exactly once.
pub struct OwnedSecurityBuffers {
    data: Vec<u8>,
    released: bool,
}

impl OwnedSecurityBuffers {
    pub closed spec fn spec_len(&self) -> nat {
        self.data@.len()
    }

    /// A pool is live until its one permitted release.
    pub closed spec fn is_live(&self) -> bool {
        !self.released
    }

    /// Allocate a zeroed pool of `size` bytes.
    pub fn new(size: u32) -> (r: OwnedSecurityBuffers)
        ensures
            r.spec_len() == size,
            r.is_live(),
    {
        let mut data: Vec<u8> = Vec::new();
        data.resize(size as usize, 0u8);
        OwnedSecurityBuffers { data, released: false }
    }

    /// Free the pool. Permitted exactly once.
    pub fn release(&mut self)
        requires
            old(self).is_live(),
        ensures
            !final(self).is_live(),
    {
        self.released = true;
    }
}

/// The provider-allocated buffers: each buffer, and then the array
/// itself, must be given back to the provider, exactly once.
pub struct SspiAllocatedSecurityBuffers {
    count: u32,
    released: bool,
}

impl SspiAllocatedSecurityBuffers {
    /// How many provider buffers the descriptor holds.
    pub closed spec fn spec_count(&self) -> u32 {
        self.count
    }

    /// The buffers are live until their one permitted release.
    pub closed spec fn is_live(&self) -> bool {
        !self.released
    }

    /// Take ownership of a provider-filled descriptor of `count` buffers.
    pub fn new(count: u32) -> (r: SspiAllocatedSecurityBuffers)
        ensures
            r.spec_count() == count,
            r.is_live(),
    {
        SspiAllocatedSecurityBuffers { count, released: false }
    }

    /// Give every buffer, then the array, back to the provider. Permitted
    /// exactly once.
    pub fn release(&mut self)
        requires
            old(self).is_live(),
        ensures
            !final(self).is_live(),
    {
        self.released = true;
    }
}

/// The tagged ownership variant behind one server handshake's output
/// token: self-allocated pool or provider-allocated buffers.
pub enum SecurityBuffers {
    SelfAllocated(OwnedSecurityBuffers),
    FromProvider(SspiAllocatedSecurityBuffers),
}

/// One server handshake's output-token allocation, tied to the settings
/// that chose its discipline so the right release path is taken.
pub struct MaybeAllocatedBuffer {
    settings: ServerSettings,
    buffers: SecurityBuffers,
}

impl MaybeAllocatedBuffer {
    #[verifier::type_invariant]
    spec fn wf(&self) -> bool {
        match self.buffers {
            SecurityBuffers::SelfAllocated(b) => !self.settings.spec_lets_sspi_allocate()
                && b.is_live(),
            SecurityBuffers::FromProvider(b) => self.settings.spec_lets_sspi_allocate() && b.is_live(),
        }
    }

    pub closed spec fn spec_settings(&self) -> ServerSettings {
        self.settings
    }

    /// Whether the provider allocates, as the settings decided.
    pub closed spec fn spec_provider_allocated(&self) -> bool {
        self.buffers is FromProvider
    }

    /// The self-allocated pool's size (zero under provider allocation).
    pub closed spec fn spec_pool_len(&self) -> nat {
        match self.buffers {
            SecurityBuffers::SelfAllocated(b) => b.spec_len(),
            SecurityBuffers::FromProvider(_) => 0,
        }
    }

    /// Set up the allocation the settings ask for: an empty descriptor
    /// the provider will fill, or a self-allocated pool of the provider's
    /// maximum token size.
    pub fn new(settings: ServerSettings, max_token_size: u32) -> (r: MaybeAllocatedBuffer)
        ensures
            r.spec_settings() == settings,
            r.spec_provider_allocated() == settings.spec_lets_sspi_allocate(),
            !settings.spec_lets_sspi_allocate() ==> r.spec_pool_len() == max_token_size,
    {
        let buffers = if settings.lets_sspi_allocate() {
            SecurityBuffers::FromProvider(SspiAllocatedSecurityBuffers::new(0))
        } else {
            SecurityBuffers::SelfAllocated(OwnedSecurityBuffers::new(max_token_size))
        };
        MaybeAllocatedBuffer { settings, buffers }
    }

    /// The settings this allocation was made under.
    pub fn server_settings(&self) -> (r: ServerSettings)
        ensures
            r == self.spec_settings(),
    {
        self.settings
    }

    /// Release whatever was allocated, down its own variant's path.
    /// Consuming the value makes this the one release it will ever see.
    pub fn release(self) {
        proof {
            use_type_invariant(&self);
        }
        let MaybeAllocatedBuffer { buffers, .. } = self;
        match buffers {
            SecurityBuffers::SelfAllocated(mut b) => b.release(),
            SecurityBuffers::FromProvider(mut b) => b.release(),
        }
    }
}

/// The SSPI channel-binding buffer: the 32-byte `SEC_CHANNEL_BINDINGS`
/// header with every address field zero, the application-data length and
/// its offset (always 32, right behind the header), then the binding
/// bytes themselves.
pub fn channel_binding_buffer(binding: &[u8]) -> (r: Vec<u8>)
    requires
        binding@.len() + 32 <= u32::MAX,
    ensures
        r@.len() == 32 + binding@.len(),
        forall|i: int| 0 <= i < 24 ==> r@[i] == 0u8,
        r@.subrange(24, 28) == spec_le32(binding@.len() as u32),
        r@.subrange(28, 32) == spec_le32(32),
        r@.subrange(32, r@.len() as int) == binding@,
{
    let mut out: Vec<u8> = Vec::new();
    push_le32(&mut out, 0);  // initiator address type
    push_le32(&mut out, 0);  // initiator length
    push_le32(&mut out, 0);  // initiator offset
    push_le32(&mut out, 0);  // acceptor address type
    push_le32(&mut out, 0);  // acceptor length
    push_le32(&mut out, 0);  // acceptor offset
    push_le32(&mut out, binding.len() as u32);
    push_le32(&mut out, 32);
    append_bytes(&mut out, binding);
    proof {
        assert(0u32 & 0xFF == 0) by (bit_vector);
        assert((0u32 >> 8) & 0xFF == 0) by (bit_vector);
        assert((0u32 >> 16) & 0xFF == 0) by (bit_vector);
        assert((0u32 >> 24) & 0xFF == 0) by (bit_vector);
        assert(spec_le32(0) =~= seq![0u8, 0u8, 0u8, 0u8]);
        assert(forall|i: int| 0 <= i < 24 ==> out@[i] == 0u8);
        assert(out@.subrange(24, 28) =~= spec_le32(binding@.len() as u32));
        assert(out@.subrange(28, 32) =~= spec_le32(32));
        assert(out@.subrange(32, out@.len() as int) =~= binding@);
    }
    out
}

} // verus!
