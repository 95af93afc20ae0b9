//! Client-side negotiation scenarios, driven with scripted provider
//! reports.
use kenobi::client::builder::ClientBuilder;
use kenobi::client::{abandoned_context, RoundResult, StepOut};
use kenobi::cred::{AcquireOutcome, Credentials, Outbound};
use kenobi::error::Error;
use kenobi::flags::{
    GSS_C_CONF_FLAG, GSS_C_DELEG_FLAG, GSS_C_INTEG_FLAG, GSS_C_MUTUAL_FLAG, GSS_S_COMPLETE,
    GSS_S_CONTINUE_NEEDED, ISC_REQ_CONFIDENTIALITY, ISC_REQ_INTEGRITY, ISC_REQ_MUTUAL_AUTH,
    ISC_REQ_NO_INTEGRITY,
};
use kenobi::sign_encrypt::{UnwrapOutcome, WrapOutcome};

fn outbound_cred() -> Credentials<Outbound> {
    Credentials::from_acquire(AcquireOutcome {
        major: 0,
        minor: 0,
        handle_present: true,
        validity_seconds: 3600,
    })
    .unwrap()
}

fn ok_round(attributes: u32, token: Vec<u8>) -> RoundResult {
    RoundResult {
        major: GSS_S_COMPLETE,
        minor: 0,
        attributes,
        token,
        context_id: Some(7),
    }
}

fn continue_round(attributes: u32, token: Vec<u8>) -> RoundResult {
    RoundResult {
        major: GSS_S_CONTINUE_NEEDED,
        minor: 0,
        attributes,
        token,
        context_id: Some(7),
    }
}

#[test]
fn request_flags_cover_capabilities() {
    let cred = outbound_cred();
    let _ = &cred;
    let plain = ClientBuilder::new(None);
    assert_eq!(plain.request_flags(), GSS_C_MUTUAL_FLAG);
    let signing = ClientBuilder::new(None).request_signing();
    assert_eq!(signing.request_flags(), GSS_C_MUTUAL_FLAG | GSS_C_INTEG_FLAG);
    let both = ClientBuilder::new(None)
        .request_signing()
        .request_encryption();
    assert_eq!(
        both.request_flags(),
        GSS_C_MUTUAL_FLAG | GSS_C_INTEG_FLAG | GSS_C_CONF_FLAG
    );
    let all = ClientBuilder::new(None)
        .request_signing()
        .request_encryption()
        .allow_delegation();
    assert_eq!(
        all.request_flags(),
        GSS_C_MUTUAL_FLAG | GSS_C_INTEG_FLAG | GSS_C_CONF_FLAG | GSS_C_DELEG_FLAG
    );
    let denied = ClientBuilder::new(None).deny_signing();
    assert_eq!(denied.request_flags(), GSS_C_MUTUAL_FLAG);
}

#[test]
fn sspi_request_flags_follow_the_same_markers() {
    let both = ClientBuilder::new(None)
        .request_signing()
        .request_encryption();
    assert_eq!(
        both.sspi_request_flags(),
        ISC_REQ_MUTUAL_AUTH | ISC_REQ_INTEGRITY | ISC_REQ_CONFIDENTIALITY
    );
    // Refusing signing outright removes the mutual-authentication request
    // and asks for no integrity at all.
    let denied = ClientBuilder::new(None).deny_signing();
    assert_eq!(denied.sspi_request_flags(), ISC_REQ_NO_INTEGRITY);
}

#[test]
fn requested_lifetime_is_clamped() {
    let plain = ClientBuilder::new(None);
    assert_eq!(plain.requested_lifetime(), u32::MAX);
    let capped = ClientBuilder::new(None).request_duration(5);
    assert_eq!(capped.requested_lifetime(), 5);
    let oversized = ClientBuilder::new(None).request_duration(1 << 40);
    assert_eq!(oversized.requested_lifetime(), u32::MAX);
}

// Client requests signing and encryption and the server offers both:
// after two rounds both capabilities resolve to the granted markers, the
// signing path yields the provider's token and the unwrap path reports
// the message unencrypted.
#[test]
fn signing_and_encryption_granted_after_rounds() {
    let cred = outbound_cred();
    let builder = ClientBuilder::new(Some(String::from("host/peer.example")))
        .request_signing()
        .request_encryption();

    let pending = match builder
        .initialize(&cred, continue_round(0, b"token-1".to_vec()))
        .unwrap()
    {
        StepOut::Pending(p) => p,
        StepOut::Finished(_) => panic!("first round should continue"),
    };
    assert_eq!(pending.next_token(), b"token-1");

    let granted = GSS_C_MUTUAL_FLAG | GSS_C_INTEG_FLAG | GSS_C_CONF_FLAG;
    let finished = match pending
        .step(&cred, ok_round(granted, b"final-token".to_vec()))
        .unwrap()
    {
        StepOut::Finished(c) => c,
        StepOut::Pending(_) => panic!("second round should finish"),
    };
    assert!(finished.is_mutually_authenticated());
    assert_eq!(finished.last_token().unwrap(), b"final-token");

    let signing = finished.check_signing().ok().expect("signing was granted");
    let sealed = signing.check_encryption().ok().expect("encryption was granted");

    let signature = sealed
        .sign(WrapOutcome {
            major: 0,
            minor: 0,
            conf_state: 0,
            wrapped: b"signed-hello".to_vec(),
        })
        .unwrap();
    assert_eq!(signature.as_slice(), b"signed-hello");

    let plain = sealed
        .unwrap(UnwrapOutcome {
            major: 0,
            conf_state: 0,
            plaintext: b"hello".to_vec(),
        })
        .unwrap();
    assert_eq!(plain.as_slice(), b"hello");
    assert!(!plain.was_encrypted());

    let cipher = sealed
        .encrypt(WrapOutcome {
            major: 0,
            minor: 0,
            conf_state: 1,
            wrapped: b"sealed-hello".to_vec(),
        })
        .unwrap();
    assert_eq!(cipher.as_slice(), b"sealed-hello");

    let recovered = sealed
        .unwrap(UnwrapOutcome {
            major: 0,
            conf_state: 1,
            plaintext: b"hello".to_vec(),
        })
        .unwrap();
    assert_eq!(recovered.as_slice(), b"hello");
    assert!(recovered.was_encrypted());
}

// Client requests encryption but the returned attribute word does not
// grant it: resolution yields the "cannot" marker, on which `encrypt` is
// not available at all.
#[test]
fn encryption_refused_resolves_to_cannot() {
    let cred = outbound_cred();
    let builder = ClientBuilder::new(None).request_signing().request_encryption();
    let granted = GSS_C_MUTUAL_FLAG | GSS_C_INTEG_FLAG;
    let finished = match builder.initialize(&cred, ok_round(granted, Vec::new())).unwrap() {
        StepOut::Finished(c) => c,
        StepOut::Pending(_) => panic!("round should finish"),
    };
    assert!(finished.last_token().is_none());
    let signing = finished.check_signing().ok().expect("signing was granted");
    let refused = signing.check_encryption();
    assert!(refused.is_err());
    // On the `Err` context the encryption marker is `NoEncryption`; the
    // `encrypt` method only exists for `Encryption`, so a call would not
    // even name-check.
}

// Resolution follows the returned attribute word alone: for every
// combination of granted bits the three markers land exactly on the
// granted side, with identical requests throughout.
#[test]
fn resolution_matches_returned_mask_for_all_combinations() {
    for bits in 0u32..8 {
        let granted = GSS_C_MUTUAL_FLAG
            | if bits & 1 != 0 { GSS_C_INTEG_FLAG } else { 0 }
            | if bits & 2 != 0 { GSS_C_CONF_FLAG } else { 0 }
            | if bits & 4 != 0 { GSS_C_DELEG_FLAG } else { 0 };
        let cred = outbound_cred();
        let builder = ClientBuilder::new(None)
            .request_signing()
            .request_encryption()
            .allow_delegation();
        let finished = match builder.initialize(&cred, ok_round(granted, Vec::new())).unwrap() {
            StepOut::Finished(c) => c,
            StepOut::Pending(_) => panic!("round should finish"),
        };
        assert_eq!(finished.check_signing().is_ok(), bits & 1 != 0);

        let cred = outbound_cred();
        let builder = ClientBuilder::new(None)
            .request_signing()
            .request_encryption()
            .allow_delegation();
        let finished = match builder.initialize(&cred, ok_round(granted, Vec::new())).unwrap() {
            StepOut::Finished(c) => c,
            StepOut::Pending(_) => panic!("round should finish"),
        };
        assert_eq!(finished.check_encryption().is_ok(), bits & 2 != 0);

        let cred = outbound_cred();
        let builder = ClientBuilder::new(None)
            .request_signing()
            .request_encryption()
            .allow_delegation();
        let finished = match builder.initialize(&cred, ok_round(granted, Vec::new())).unwrap() {
            StepOut::Finished(c) => c,
            StepOut::Pending(_) => panic!("round should finish"),
        };
        assert_eq!(finished.check_delegation().is_ok(), bits & 4 != 0);
    }
}

#[test]
fn failed_round_maps_minor_then_major() {
    let cred = outbound_cred();
    let failure = RoundResult {
        major: 0x000D_0000,
        minor: 0,
        attributes: 0,
        token: Vec::new(),
        context_id: None,
    };
    let err = ClientBuilder::new(None).initialize(&cred, failure).err().unwrap();
    match err {
        Error::Gss(code) => assert_eq!(code.code(), 0x000D_0000),
        Error::Mechanism(_) => panic!("no minor status was reported"),
    }

    let mechanism_failure = RoundResult {
        major: 0x000D_0000,
        minor: 42,
        attributes: 0,
        token: Vec::new(),
        context_id: None,
    };
    let err = ClientBuilder::new(None)
        .initialize(&cred, mechanism_failure)
        .err()
        .unwrap();
    match err {
        Error::Mechanism(code) => assert_eq!(code.code(), 42),
        Error::Gss(_) => panic!("minor status takes precedence"),
    }
}

#[test]
fn failed_first_round_names_the_orphan_context() {
    let failure = RoundResult {
        major: 0x000D_0000,
        minor: 0,
        attributes: 0,
        token: Vec::new(),
        context_id: Some(9),
    };
    assert_eq!(abandoned_context(&failure), Some(9));
    let success = RoundResult {
        major: GSS_S_COMPLETE,
        minor: 0,
        attributes: 0,
        token: Vec::new(),
        context_id: Some(9),
    };
    assert_eq!(abandoned_context(&success), None);
}

#[test]
fn pending_context_keeps_builder_choices() {
    let cred = outbound_cred();
    let builder = ClientBuilder::new(Some(String::from("host/peer.example")))
        .request_duration(30)
        .with_channel_binding(Some(b"tls-end-point".to_vec()));
    let pending = match builder
        .initialize(&cred, continue_round(0, b"t".to_vec()))
        .unwrap()
    {
        StepOut::Pending(p) => p,
        StepOut::Finished(_) => panic!("round should continue"),
    };
    assert_eq!(pending.principal().as_deref(), Some("host/peer.example"));
    assert_eq!(pending.channel_binding().as_deref(), Some(&b"tls-end-point"[..]));
    assert_eq!(pending.requested_lifetime(), 30);
}

#[test]
fn empty_binding_is_distinct_from_no_binding() {
    let cred = outbound_cred();
    let bound = ClientBuilder::new(None).with_channel_binding(Some(Vec::new()));
    let pending = match bound.initialize(&cred, continue_round(0, b"t".to_vec())).unwrap() {
        StepOut::Pending(p) => p,
        StepOut::Finished(_) => panic!("round should continue"),
    };
    assert_eq!(pending.channel_binding().as_deref(), Some(&b""[..]));

    let unbound = ClientBuilder::new(None).with_channel_binding(None);
    let pending = match unbound
        .initialize(&cred, continue_round(0, b"t".to_vec()))
        .unwrap()
    {
        StepOut::Pending(p) => p,
        StepOut::Finished(_) => panic!("round should continue"),
    };
    assert!(pending.channel_binding().is_none());
}

#[test]
fn released_contexts_consume_their_handle() {
    let cred = outbound_cred();
    let pending = match ClientBuilder::new(None)
        .initialize(&cred, continue_round(0, b"t".to_vec()))
        .unwrap()
    {
        StepOut::Pending(p) => p,
        StepOut::Finished(_) => panic!("round should continue"),
    };
    // One release per context, enforced by consumption.
    pending.release();

    let finished = match ClientBuilder::new(None)
        .initialize(&cred, ok_round(0, Vec::new()))
        .unwrap()
    {
        StepOut::Finished(c) => c,
        StepOut::Pending(_) => panic!("round should finish"),
    };
    finished.release();
}
