//! The supporting types: error codes, credentials, buffers, conversions.
use kenobi::buffer::{channel_binding_buffer, MaybeAllocatedBuffer, ReadOnlySecBuffer};
use kenobi::client::error::{completion_refusal, initialize_error, InitializeContextError};
use kenobi::flags::{ISC_RET_CONFIDENTIALITY, ISC_RET_INTEGRITY};
use kenobi::flags::{SEC_E_LOGON_DENIED, SEC_E_TARGET_UNKNOWN, SEC_E_WRONG_PRINCIPAL};
use kenobi::server::AcceptContextError;
use kenobi::sign_encrypt::Altered;
use kenobi::cred::{AcquireOutcome, Both, Credentials, CredentialsError, Inbound, Outbound};
use kenobi::credentials::{CredentialsHandle, SecHandleValue};
use kenobi::error::{Error, GssErrorCode, MechanismErrorCode};
use kenobi::flags::{SECBUFFER_READONLY, SECBUFFER_TOKEN};
use kenobi::settings::ServerSettings;
use kenobi::sign::Signature;
use kenobi::to_wide;

#[test]
fn error_codes_reject_zero() {
    assert!(GssErrorCode::new(0).is_none());
    assert!(MechanismErrorCode::new(0).is_none());
    assert_eq!(GssErrorCode::new(0x000D_0000).unwrap().code(), 0x000D_0000);
    assert_eq!(MechanismErrorCode::new(7).unwrap().code(), 7);
    assert!(Error::gss(0).is_none());
    assert!(matches!(Error::gss(5), Some(Error::Gss(_))));
    assert!(matches!(Error::mechanism(5), Some(Error::Mechanism(_))));
}

#[test]
fn acquisition_classifies_every_report() {
    let ok: Result<Credentials<Outbound>, Error> = Credentials::from_acquire(AcquireOutcome {
        major: 0,
        minor: 0,
        handle_present: true,
        validity_seconds: 60,
    });
    assert_eq!(ok.unwrap().validity_seconds(), 60);

    let gss_failure: Result<Credentials<Outbound>, Error> =
        Credentials::from_acquire(AcquireOutcome {
            major: 0x000B_0000,
            minor: 0,
            handle_present: false,
            validity_seconds: 0,
        });
    assert!(matches!(gss_failure.err().unwrap(), Error::Gss(_)));

    let mech_failure: Result<Credentials<Inbound>, Error> =
        Credentials::from_acquire(AcquireOutcome {
            major: 0,
            minor: 99,
            handle_present: false,
            validity_seconds: 0,
        });
    assert!(matches!(mech_failure.err().unwrap(), Error::Mechanism(_)));

    let null_handle: Result<Credentials<Inbound>, Error> =
        Credentials::from_acquire(AcquireOutcome {
            major: 0,
            minor: 0,
            handle_present: false,
            validity_seconds: 0,
        });
    match null_handle.err().unwrap() {
        Error::Gss(code) => assert_eq!(code.code(), 0x000D_0000),
        Error::Mechanism(_) => panic!("a null handle is a GSS-level failure"),
    }

    let wrapped = CredentialsError::from_inner(Error::mechanism(3).unwrap());
    assert!(matches!(wrapped.inner(), Error::Mechanism(_)));
}

#[test]
fn both_credentials_convert_to_either_usage() {
    let both: Credentials<Both> = Credentials::from_acquire(AcquireOutcome {
        major: 0,
        minor: 0,
        handle_present: true,
        validity_seconds: 120,
    })
    .unwrap();
    let inbound: Credentials<Inbound> = both.into_inbound();
    assert_eq!(inbound.validity_seconds(), 120);

    let both: Credentials<Both> = Credentials::from_acquire(AcquireOutcome {
        major: 0,
        minor: 0,
        handle_present: true,
        validity_seconds: 120,
    })
    .unwrap();
    let outbound: Credentials<Outbound> = both.into_outbound();
    assert_eq!(outbound.validity_seconds(), 120);
}

#[test]
fn credentials_handle_keeps_its_words() {
    let handle = CredentialsHandle::acquired(SecHandleValue { lower: 3, upper: 4 }, 99);
    assert_eq!(handle.sec_handle(), SecHandleValue { lower: 3, upper: 4 });
    assert_eq!(handle.as_raw_handle().lower, 3);
    assert_eq!(handle.expiry(), 99);
    let mut handle = handle;
    handle.release();
}

#[test]
fn to_wide_appends_terminator() {
    assert_eq!(to_wide("abc"), vec![97u16, 98, 99, 0]);
    assert_eq!(to_wide(""), vec![0u16]);
    // A two-byte UTF-8 character still fits one UTF-16 code unit.
    assert_eq!(to_wide("é"), vec![0xE9u16, 0]);
}

#[test]
fn read_only_buffer_describes_the_slice() {
    let bytes = [1u8, 2, 3];
    let mut buffer = ReadOnlySecBuffer::from_slice(&bytes).unwrap();
    let shape = buffer.buffer_mut();
    assert_eq!(shape.length, 3);
    assert_eq!(shape.buffer_type, SECBUFFER_TOKEN | SECBUFFER_READONLY);
}

#[test]
fn allocation_variant_follows_settings() {
    let own = MaybeAllocatedBuffer::new(ServerSettings::default(), 4096);
    assert!(!own.server_settings().lets_sspi_allocate());
    own.release();

    let provider = MaybeAllocatedBuffer::new(ServerSettings::default().let_sspi_allocate(), 4096);
    assert!(provider.server_settings().lets_sspi_allocate());
    provider.release();
}

#[test]
fn channel_binding_buffer_lays_out_the_header() {
    let buffer = channel_binding_buffer(b"bind");
    assert_eq!(buffer.len(), 36);
    assert_eq!(&buffer[..24], &[0u8; 24]);
    assert_eq!(&buffer[24..28], &[4, 0, 0, 0]);
    assert_eq!(&buffer[28..32], &[32, 0, 0, 0]);
    assert_eq!(&buffer[32..], b"bind");

    let empty = channel_binding_buffer(b"");
    assert_eq!(empty.len(), 32);
    assert_eq!(&empty[24..28], &[0, 0, 0, 0]);
}

#[test]
fn initialize_errors_map_expected_statuses() {
    assert_eq!(
        initialize_error(SEC_E_LOGON_DENIED),
        InitializeContextError::Denied
    );
    assert_eq!(
        initialize_error(SEC_E_TARGET_UNKNOWN),
        InitializeContextError::TargetUnknown
    );
    assert_eq!(
        initialize_error(SEC_E_WRONG_PRINCIPAL),
        InitializeContextError::WrongPrincipal
    );
}

#[test]
fn completion_refusals_follow_the_returned_word() {
    let granted_both = ISC_RET_CONFIDENTIALITY | ISC_RET_INTEGRITY;
    assert_eq!(completion_refusal(granted_both, true, true), None);
    assert_eq!(
        completion_refusal(ISC_RET_INTEGRITY, true, true),
        Some(InitializeContextError::ServerRefusedEncryption)
    );
    assert_eq!(
        completion_refusal(ISC_RET_CONFIDENTIALITY, true, true),
        Some(InitializeContextError::ServerRefusedSigning)
    );
    assert_eq!(completion_refusal(0, false, false), None);
}

#[test]
fn error_messages_name_the_failure() {
    assert_eq!(
        AcceptContextError::Denied.message(),
        "access denied"
    );
    assert_eq!(
        AcceptContextError::InvalidToken.message(),
        "the client's token is not a valid Negotiate token"
    );
    assert_eq!(
        Altered.message(),
        "the message has been altered or its signature is invalid"
    );
    assert_eq!(
        kenobi::server::impersonation::ImpersonationError::NoImpersonation.message(),
        "the client could not be impersonated"
    );
}

#[test]
fn signature_wraps_bytes() {
    let sig = Signature::new(b"sig-bytes");
    assert_eq!(sig.as_slice(), b"sig-bytes");
}
