//! Server-side negotiation, delegation and message-framing scenarios.
use kenobi::cred::{AcquireOutcome, Both, Credentials};
use kenobi::flags::{
    ASC_REQ_ALLOCATE_MEMORY, ASC_REQ_CONFIDENTIALITY, ASC_REQ_CONNECTION, ASC_REQ_DELEGATE,
    ASC_REQ_INTEGRITY, ASC_REQ_MUTUAL_AUTH, ASC_REQ_REPLAY_DETECT, ASC_REQ_SEQUENCE_DETECT,
    ASC_RET_CONFIDENTIALITY, ASC_RET_DELEGATE, ASC_RET_INTEGRITY, ASC_RET_MUTUAL_AUTH,
    SECQOP_WRAP_NO_ENCRYPT, SEC_E_INTERNAL_ERROR, SEC_E_INVALID_HANDLE, SEC_E_INVALID_TOKEN,
    SEC_E_LOGON_DENIED, SEC_E_MESSAGE_ALTERED, SEC_E_NO_AUTHENTICATING_AUTHORITY,
    SEC_E_NO_IMPERSONATION, SEC_E_OK, SEC_I_CONTINUE_NEEDED,
};
use kenobi::server::impersonation::ImpersonationError;
use kenobi::server::{AcceptContextError, AcceptOutcome, ServerBuilder, StepOk};
use kenobi::settings::{ServerSettings, TargetDataRep};
use kenobi::sign::{DecryptOutcome, EncryptOutcome};
use kenobi::step::{format_error, step_error_of_accept, StepError};

fn both_cred() -> Credentials<Both> {
    Credentials::from_acquire(AcquireOutcome {
        major: 0,
        minor: 0,
        handle_present: true,
        validity_seconds: 600,
    })
    .unwrap()
}

fn ok_accept(attributes: u32, token: Vec<u8>) -> AcceptOutcome {
    AcceptOutcome {
        status: SEC_E_OK,
        attributes,
        token,
        context_id: Some(11),
        expiry: 1234,
    }
}

fn continue_accept(attributes: u32, token: Vec<u8>) -> AcceptOutcome {
    AcceptOutcome {
        status: SEC_I_CONTINUE_NEEDED,
        attributes,
        token,
        context_id: Some(11),
        expiry: 0,
    }
}

fn failed_accept(status: u32) -> AcceptOutcome {
    AcceptOutcome {
        status,
        attributes: 0,
        token: Vec::new(),
        context_id: None,
        expiry: 0,
    }
}

#[test]
fn server_request_flags_cover_offers() {
    let builder = ServerBuilder::new();
    assert_eq!(builder.request_flags(), ASC_REQ_MUTUAL_AUTH);
    let offering = ServerBuilder::new()
        .offer_signing()
        .offer_encryption()
        .request_delegation();
    assert_eq!(
        offering.request_flags(),
        ASC_REQ_MUTUAL_AUTH | ASC_REQ_INTEGRITY | ASC_REQ_CONFIDENTIALITY | ASC_REQ_DELEGATE
    );
}

// A server that set OfferDelegate against a client that allows
// delegation: resolution yields a delegation-capable context, and the
// impersonation guard appears on success and is reverted once.
#[test]
fn delegation_granted_enables_impersonation() {
    let cred = both_cred();
    let builder = ServerBuilder::new().offer_signing().request_delegation();
    let pending = match builder
        .initialize(&cred, continue_accept(0, b"answer-1".to_vec()))
        .unwrap()
    {
        StepOk::Continue(p) => p,
        StepOk::Finished(_) => panic!("first round should continue"),
    };
    assert_eq!(pending.next_token(), b"answer-1");

    let granted = ASC_RET_MUTUAL_AUTH | ASC_RET_INTEGRITY | ASC_RET_DELEGATE;
    let finished = match pending.step(&cred, ok_accept(granted, Vec::new())).unwrap() {
        StepOk::Finished(c) => c,
        StepOk::Continue(_) => panic!("second round should finish"),
    };
    assert!(finished.is_mutually_authenticated());
    assert_eq!(finished.expiry(), 1234);

    let delegating = finished.check_delegation().ok().expect("delegation was granted");
    let guard = delegating.impersonate_client(SEC_E_OK).unwrap();
    guard.revert();

    let refused = delegating.impersonate_client(SEC_E_NO_IMPERSONATION);
    assert_eq!(refused.err().unwrap(), ImpersonationError::NoImpersonation);
    let invalid = delegating.impersonate_client(SEC_E_INVALID_HANDLE);
    assert_eq!(invalid.err().unwrap(), ImpersonationError::InvalidHandle);
}

#[test]
fn delegation_not_granted_resolves_to_cannot() {
    let cred = both_cred();
    let builder = ServerBuilder::new().request_delegation();
    let finished = match builder
        .initialize(&cred, ok_accept(ASC_RET_MUTUAL_AUTH, Vec::new()))
        .unwrap()
    {
        StepOk::Finished(c) => c,
        StepOk::Continue(_) => panic!("round should finish"),
    };
    assert!(finished.check_delegation().is_err());
    // On the `Err` context the delegation marker is `NoDelegation`, and
    // `impersonate_client` only exists for `CanDelegate`.
}

#[test]
fn accept_errors_map_one_to_one() {
    let cases = [
        (SEC_E_INTERNAL_ERROR, AcceptContextError::Internal),
        (SEC_E_INVALID_HANDLE, AcceptContextError::InvalidHandle),
        (SEC_E_INVALID_TOKEN, AcceptContextError::InvalidToken),
        (SEC_E_LOGON_DENIED, AcceptContextError::Denied),
        (
            SEC_E_NO_AUTHENTICATING_AUTHORITY,
            AcceptContextError::NoAuthority,
        ),
    ];
    for (status, expected) in cases {
        let cred = both_cred();
        let err = ServerBuilder::new()
            .initialize(&cred, failed_accept(status))
            .err()
            .unwrap();
        assert_eq!(err, expected);
    }
}

#[test]
fn signing_resolution_follows_returned_word() {
    for granted in [0u32, ASC_RET_INTEGRITY, ASC_RET_CONFIDENTIALITY] {
        let cred = both_cred();
        let builder = ServerBuilder::new().offer_signing().offer_encryption();
        let finished = match builder.initialize(&cred, ok_accept(granted, Vec::new())).unwrap() {
            StepOk::Finished(c) => c,
            StepOk::Continue(_) => panic!("round should finish"),
        };
        assert_eq!(finished.check_signing().is_ok(), granted & ASC_RET_INTEGRITY != 0);

        let cred = both_cred();
        let builder = ServerBuilder::new().offer_signing().offer_encryption();
        let finished = match builder.initialize(&cred, ok_accept(granted, Vec::new())).unwrap() {
            StepOk::Finished(c) => c,
            StepOk::Continue(_) => panic!("round should finish"),
        };
        assert_eq!(
            finished.check_encryption().is_ok(),
            granted & ASC_RET_CONFIDENTIALITY != 0
        );
    }
}

// The framing round trip this library computes: assembling a signed
// message and extracting the payload back out yields the message.
#[test]
fn wrap_frame_round_trips() {
    let cred = both_cred();
    let builder = ServerBuilder::new().offer_signing().offer_encryption();
    let granted = ASC_RET_MUTUAL_AUTH | ASC_RET_INTEGRITY | ASC_RET_CONFIDENTIALITY;
    let finished = match builder.initialize(&cred, ok_accept(granted, Vec::new())).unwrap() {
        StepOk::Finished(c) => c,
        StepOk::Continue(_) => panic!("round should finish"),
    };
    let signing = finished.check_signing().ok().expect("signing was granted");
    let sealed = signing.check_encryption().ok().expect("encryption was granted");

    let header = b"HDR".to_vec();
    let data = b"hello".to_vec();
    let trailer = b"PAD".to_vec();
    let signature = sealed
        .sign_message(EncryptOutcome {
            status: SEC_E_OK,
            header: header.clone(),
            data: data.clone(),
            trailer: trailer.clone(),
        })
        .unwrap();
    assert_eq!(signature.as_slice(), b"HDRhelloPAD");

    let plain = sealed
        .verify_message(DecryptOutcome {
            status: SEC_E_OK,
            qop: SECQOP_WRAP_NO_ENCRYPT,
            buffer: signature.as_slice().to_vec(),
            header_length: header.len(),
            data_length: data.len(),
        })
        .unwrap();
    assert_eq!(plain.as_slice(), b"hello");
    assert!(!plain.was_encrypted());

    let cipher = sealed
        .encrypt_message(EncryptOutcome {
            status: SEC_E_OK,
            header: header.clone(),
            data: data.clone(),
            trailer: trailer.clone(),
        })
        .unwrap();
    assert_eq!(cipher.as_slice(), b"HDRhelloPAD");

    let recovered = sealed
        .verify_message(DecryptOutcome {
            status: SEC_E_OK,
            qop: 0,
            buffer: cipher.as_slice().to_vec(),
            header_length: header.len(),
            data_length: data.len(),
        })
        .unwrap();
    assert_eq!(recovered.as_slice(), b"hello");
    assert!(recovered.was_encrypted());
}

// Tamper detection surfaces as `Altered` and as nothing else: both
// failure statuses the provider contract allows map to it, and the
// return type admits no other error.
#[test]
fn altered_messages_fail_with_altered_only() {
    let cred = both_cred();
    let builder = ServerBuilder::new().offer_signing();
    let finished = match builder
        .initialize(&cred, ok_accept(ASC_RET_INTEGRITY, Vec::new()))
        .unwrap()
    {
        StepOk::Finished(c) => c,
        StepOk::Continue(_) => panic!("round should finish"),
    };
    let signing = finished.check_signing().ok().expect("signing was granted");
    for status in [SEC_E_MESSAGE_ALTERED, SEC_E_INVALID_TOKEN] {
        let outcome = DecryptOutcome {
            status,
            qop: 0,
            buffer: b"garbled".to_vec(),
            header_length: 0,
            data_length: 0,
        };
        assert!(signing.verify_message(outcome).is_err());
    }
}

#[test]
fn failed_sign_reports_the_status() {
    let cred = both_cred();
    let builder = ServerBuilder::new().offer_signing();
    let finished = match builder
        .initialize(&cred, ok_accept(ASC_RET_INTEGRITY, Vec::new()))
        .unwrap()
    {
        StepOk::Finished(c) => c,
        StepOk::Continue(_) => panic!("round should finish"),
    };
    let signing = finished.check_signing().ok().expect("signing was granted");
    let err = signing
        .sign_message(EncryptOutcome {
            status: SEC_E_INVALID_HANDLE,
            header: Vec::new(),
            data: Vec::new(),
            trailer: Vec::new(),
        })
        .err()
        .unwrap();
    assert_eq!(err.status(), SEC_E_INVALID_HANDLE);
}

#[test]
fn default_settings_ask_for_protected_connection() {
    let settings = ServerSettings::default();
    assert_eq!(
        settings.bitflags,
        ASC_REQ_CONNECTION | ASC_REQ_CONFIDENTIALITY | ASC_REQ_INTEGRITY | ASC_REQ_REPLAY_DETECT
            | ASC_REQ_SEQUENCE_DETECT
    );
    assert_eq!(settings.datarep, TargetDataRep::Network);
    assert!(!settings.lets_sspi_allocate());

    let delegating = settings.request_unconstrained_delegation();
    assert_eq!(delegating.bitflags, settings.bitflags | ASC_REQ_DELEGATE);

    let provider_allocated = settings.let_sspi_allocate();
    assert_eq!(
        provider_allocated.bitflags,
        settings.bitflags | ASC_REQ_ALLOCATE_MEMORY
    );
    assert!(provider_allocated.lets_sspi_allocate());
}

#[test]
fn step_errors_share_names_across_backends() {
    assert_eq!(
        step_error_of_accept(&AcceptContextError::InvalidToken),
        Some(StepError::InvalidToken)
    );
    assert_eq!(
        step_error_of_accept(&AcceptContextError::Denied),
        Some(StepError::LogonDenied)
    );
    assert_eq!(
        step_error_of_accept(&AcceptContextError::NoAuthority),
        Some(StepError::NoAuthenticatingAuthority)
    );
    assert_eq!(step_error_of_accept(&AcceptContextError::Internal), None);
    assert_eq!(step_error_of_accept(&AcceptContextError::InvalidHandle), None);
    assert_eq!(
        format_error(&StepError::LogonDenied),
        "the logon was denied"
    );
    assert_eq!(
        format_error(&StepError::IncompleteMessage),
        "the peer's message is incomplete; more data is needed"
    );
}
