//! Request- and return-flag words of the two native providers.
//!
//! The numeric values are fixed by the platform ABIs: the GSSAPI request
//! flags are from RFC 2744, the SSPI `ISC_*`/`ASC_*` flags and status words
//! from the Windows SDK's `sspi.h`/`winerror.h`. Nothing in this crate
//! computes with a flag except through the spec functions below, so every
//! contract about a granted capability reduces to one bit test on the
//! provider's *returned* attribute word.
use vstd::prelude::*;

verus! {

// GSSAPI request/return flags (RFC 2744 §5.19).
pub const GSS_C_DELEG_FLAG: u32 = 0x0000_0001;
pub const GSS_C_MUTUAL_FLAG: u32 = 0x0000_0002;
pub const GSS_C_REPLAY_FLAG: u32 = 0x0000_0004;
pub const GSS_C_SEQUENCE_FLAG: u32 = 0x0000_0008;
pub const GSS_C_CONF_FLAG: u32 = 0x0000_0010;
pub const GSS_C_INTEG_FLAG: u32 = 0x0000_0020;

// GSSAPI major-status words (RFC 2744 §5.19): zero is success, the
// supplementary bit 0 is "continue needed", everything else that sets a
// calling- or routine-error octet is an error.
pub const GSS_S_COMPLETE: u32 = 0;
pub const GSS_S_CONTINUE_NEEDED: u32 = 0x0000_0001;

// Routine-error words this library decides on (RFC 2744: routine errors
// stand in bits 16-23; "bad signature" is routine error 6, "defective
// token" 9, "general failure" 13).
pub const GSS_S_BAD_SIG: u32 = 0x0006_0000;
pub const GSS_S_DEFECTIVE_TOKEN: u32 = 0x0009_0000;
pub const GSS_S_FAILURE: u32 = 0x000D_0000;

// Default quality of protection for gss_wrap.
pub const GSS_C_QOP_DEFAULT: u32 = 0;

// Status-code classes for rendering (RFC 2744 gss_display_status).
pub const GSS_C_GSS_CODE: u32 = 1;
pub const GSS_C_MECH_CODE: u32 = 2;

// "As long as possible" credential/context lifetime request.
pub const GSS_C_INDEFINITE: u32 = 0xFFFF_FFFF;

// SSPI client-side request flags (sspi.h ISC_REQ_*).
pub const ISC_REQ_DELEGATE: u32 = 0x0000_0001;
pub const ISC_REQ_MUTUAL_AUTH: u32 = 0x0000_0002;
pub const ISC_REQ_REPLAY_DETECT: u32 = 0x0000_0004;
pub const ISC_REQ_SEQUENCE_DETECT: u32 = 0x0000_0008;
pub const ISC_REQ_CONFIDENTIALITY: u32 = 0x0000_0010;
pub const ISC_REQ_ALLOCATE_MEMORY: u32 = 0x0000_0100;
pub const ISC_REQ_CONNECTION: u32 = 0x0000_0800;
pub const ISC_REQ_INTEGRITY: u32 = 0x0001_0000;
pub const ISC_REQ_NO_INTEGRITY: u32 = 0x0080_0000;

// SSPI client-side returned-attribute flags (sspi.h ISC_RET_*).
pub const ISC_RET_DELEGATE: u32 = 0x0000_0001;
pub const ISC_RET_MUTUAL_AUTH: u32 = 0x0000_0002;
pub const ISC_RET_CONFIDENTIALITY: u32 = 0x0000_0010;
pub const ISC_RET_INTEGRITY: u32 = 0x0001_0000;

// SSPI server-side request flags (sspi.h ASC_REQ_*).
pub const ASC_REQ_DELEGATE: u32 = 0x0000_0001;
pub const ASC_REQ_MUTUAL_AUTH: u32 = 0x0000_0002;
pub const ASC_REQ_REPLAY_DETECT: u32 = 0x0000_0004;
pub const ASC_REQ_SEQUENCE_DETECT: u32 = 0x0000_0008;
pub const ASC_REQ_CONFIDENTIALITY: u32 = 0x0000_0010;
pub const ASC_REQ_ALLOCATE_MEMORY: u32 = 0x0000_0100;
pub const ASC_REQ_CONNECTION: u32 = 0x0000_0800;
pub const ASC_REQ_INTEGRITY: u32 = 0x0002_0000;

// SSPI server-side returned-attribute flags (sspi.h ASC_RET_*).
pub const ASC_RET_DELEGATE: u32 = 0x0000_0001;
pub const ASC_RET_MUTUAL_AUTH: u32 = 0x0000_0002;
pub const ASC_RET_CONFIDENTIALITY: u32 = 0x0000_0010;
pub const ASC_RET_INTEGRITY: u32 = 0x0002_0000;

// SSPI status words (winerror.h), kept as the raw 32-bit pattern of the
// HRESULT so that success (high bit clear) and failure (high bit set) stay
// plain bit tests.
pub const SEC_E_OK: u32 = 0;
pub const SEC_I_CONTINUE_NEEDED: u32 = 0x0009_0312;
pub const SEC_I_COMPLETE_NEEDED: u32 = 0x0009_0313;
pub const SEC_I_COMPLETE_AND_CONTINUE: u32 = 0x0009_0314;
pub const SEC_E_INSUFFICIENT_MEMORY: u32 = 0x8009_0300;
pub const SEC_E_INVALID_HANDLE: u32 = 0x8009_0301;
pub const SEC_E_UNSUPPORTED_FUNCTION: u32 = 0x8009_0302;
pub const SEC_E_TARGET_UNKNOWN: u32 = 0x8009_0303;
pub const SEC_E_INTERNAL_ERROR: u32 = 0x8009_0304;
pub const SEC_E_INVALID_TOKEN: u32 = 0x8009_0308;
pub const SEC_E_NO_IMPERSONATION: u32 = 0x8009_030B;
pub const SEC_E_LOGON_DENIED: u32 = 0x8009_030C;
pub const SEC_E_NO_CREDENTIALS: u32 = 0x8009_030E;
pub const SEC_E_MESSAGE_ALTERED: u32 = 0x8009_030F;
pub const SEC_E_NO_AUTHENTICATING_AUTHORITY: u32 = 0x8009_0310;
pub const SEC_E_INCOMPLETE_MESSAGE: u32 = 0x8009_0318;
pub const SEC_E_WRONG_PRINCIPAL: u32 = 0x8009_0322;

// SSPI buffer descriptor constants (sspi.h).
pub const SECBUFFER_VERSION: u32 = 0;
pub const SECBUFFER_DATA: u32 = 1;
pub const SECBUFFER_TOKEN: u32 = 2;
pub const SECBUFFER_PADDING: u32 = 9;
pub const SECBUFFER_STREAM: u32 = 10;
pub const SECBUFFER_CHANNEL_BINDINGS: u32 = 14;
pub const SECBUFFER_READONLY: u32 = 0x8000_0000;

// Quality-of-protection flag that asks EncryptMessage for a signature only.
pub const SECQOP_WRAP_NO_ENCRYPT: u32 = 0x8000_0001;

// Target data representations (sspi.h).
pub const SECURITY_NATIVE_DREP: u32 = 0x0000_0010;
pub const SECURITY_NETWORK_DREP: u32 = 0;

/// Whether the attribute word `attrs` has every bit of `flag` set.
pub open spec fn has_flags(attrs: u32, flag: u32) -> bool {
    attrs & flag == flag
}

} // verus!
