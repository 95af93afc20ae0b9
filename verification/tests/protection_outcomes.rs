//! Message-protection classification on the client, and the
//! platform-neutral wrappers.
use kenobi::client::builder::ClientBuilder;
use kenobi::client::StepOut;
use kenobi::cred::{AcquireOutcome, Credentials, Outbound};
use kenobi::error::Error;
use kenobi::flags::{
    GSS_C_INTEG_FLAG, GSS_C_MUTUAL_FLAG, GSS_S_BAD_SIG, GSS_S_COMPLETE, GSS_S_DEFECTIVE_TOKEN,
};
use kenobi::sign_encrypt::{
    Altered, SessionKeyOutcome, Signature, UnwrapError, UnwrapOutcome, WrapError, WrapOutcome,
};

fn outbound_cred() -> Credentials<Outbound> {
    Credentials::from_acquire(AcquireOutcome {
        major: 0,
        minor: 0,
        handle_present: true,
        validity_seconds: 3600,
    })
    .unwrap()
}

fn signing_context() -> kenobi::client::ClientContext<
    kenobi::typestate::Signing,
    kenobi::typestate::NoEncryption,
    kenobi::typestate::NoDelegation,
> {
    let cred = outbound_cred();
    let finished = match ClientBuilder::new(None)
        .request_signing()
        .initialize(
            &cred,
            kenobi::client::RoundResult {
                major: GSS_S_COMPLETE,
                minor: 0,
                attributes: GSS_C_MUTUAL_FLAG | GSS_C_INTEG_FLAG,
                token: Vec::new(),
                context_id: Some(1),
            },
        )
        .unwrap()
    {
        StepOut::Finished(c) => c,
        StepOut::Pending(_) => panic!("round should finish"),
    };
    finished.check_signing().ok().expect("signing was granted")
}

// Flipping bytes in a protected message makes the provider report a bad
// signature or a defective token; both surface as `Altered` and nothing
// else — the return type has no other error.
#[test]
fn tampered_messages_yield_altered() {
    let ctx = signing_context();
    for major in [GSS_S_BAD_SIG, GSS_S_DEFECTIVE_TOKEN] {
        let outcome = UnwrapOutcome {
            major,
            conf_state: 0,
            plaintext: Vec::new(),
        };
        assert_eq!(ctx.unwrap(outcome).err().unwrap(), Altered);
    }
}

#[test]
fn failed_wrap_reports_the_provider_error() {
    let ctx = signing_context();
    let gss = ctx
        .sign(WrapOutcome {
            major: 0x000D_0000,
            minor: 0,
            conf_state: 0,
            wrapped: Vec::new(),
        })
        .err()
        .unwrap();
    assert!(matches!(gss, Error::Gss(_)));

    let mech = ctx
        .sign(WrapOutcome {
            major: 0,
            minor: 17,
            conf_state: 0,
            wrapped: Vec::new(),
        })
        .err()
        .unwrap();
    match mech {
        Error::Mechanism(code) => assert_eq!(code.code(), 17),
        Error::Gss(_) => panic!("minor status takes precedence"),
    }
}

#[test]
fn session_key_lives_until_release() {
    let ctx = signing_context();
    let mut key = ctx
        .session_key(SessionKeyOutcome {
            major: 0,
            minor: 0,
            key: b"key-material".to_vec(),
        })
        .unwrap();
    assert_eq!(key.as_slice(), b"key-material");
    key.release();

    let failed = ctx.session_key(SessionKeyOutcome {
        major: 0x000C_0000,
        minor: 0,
        key: Vec::new(),
    });
    assert!(failed.is_err());
}

#[test]
fn wrappers_keep_their_contents() {
    let ctx = signing_context();
    let signed = ctx
        .sign(WrapOutcome {
            major: 0,
            minor: 0,
            conf_state: 0,
            wrapped: b"blob".to_vec(),
        })
        .unwrap();
    let signature = Signature::from_inner(signed);
    assert_eq!(signature.as_slice(), b"blob");

    let wrap_err = WrapError::from_inner(Error::gss(5).unwrap());
    assert!(matches!(wrap_err.inner(), Error::Gss(_)));
    let _unwrap_err = UnwrapError::from_inner(Altered);
}
