use lenso_auth_passkey::authenticated::{replace_passkey, Update, UpdateStage};
use lenso_auth_passkey::ceremony::VerifiedPasskey;
use lenso_auth_passkey::command::{CommandKey, ReceiptCode};
use lenso_auth_passkey::contract::{
    FinishAuthenticationRequest, FinishRegistrationRequest, RevokePasskeyRequest,
    RevokePasskeyResponse, FINISH_AUTHENTICATION_OPERATION, FINISH_REGISTRATION_OPERATION,
    REVOKE_PASSKEY_OPERATION,
};
use lenso_auth_passkey::failure::{Failure, PasskeyPluginError};
use lenso_auth_passkey::storage::{Action, Progress};
use lenso_auth_passkey::{finish_authentication, finish_registration, revoke_passkey};

fn key(operation: &'static str) -> CommandKey {
    CommandKey {
        caller: "account-settings".to_owned(),
        operation,
        idempotency_key: "key-1".to_owned(),
    }
}

fn registration() -> finish_registration::Task {
    finish_registration::Task {
        key: key(FINISH_REGISTRATION_OPERATION),
        request: FinishRegistrationRequest {
            idempotency_key: "key-1".to_owned(),
            challenge_id: "pkr_1".to_owned(),
            subject: "usr_ada".to_owned(),
            expected_revision: "0".to_owned(),
            label: "  laptop ".to_owned(),
            credential_json: "{}".to_owned(),
        },
        expected_revision: 0,
        intent: [0; 32],
    }
}

fn verified() -> VerifiedPasskey {
    VerifiedPasskey {
        passkey: "{\"p\":1}".to_owned(),
        credential_id: vec![0xfb, 0xff],
        public_key: "{\"k\":1}".to_owned(),
        counter: 9,
    }
}

#[test]
fn a_verified_registration_is_taken_in() {
    let next = finish_registration::take_in(registration(), verified(), "pk_1".to_owned());
    let Progress::Act(run, Action::Begin { label }) = next else { panic!("no transaction") };
    assert_eq!(label, "begin passkey registration transaction");
    let finish_registration::Stage::Beginning(new, draft) = run.stage else { panic!("no draft") };
    assert_eq!((new.passkey_id.as_str(), new.label.as_str()), ("pk_1", "laptop"));
    assert_eq!((new.subject.as_str(), new.sign_count), ("usr_ada", 9));
    assert_eq!((new.passkey.as_str(), new.public_key.as_str()), ("{\"p\":1}", "{\"k\":1}"));
    assert_eq!(new.credential_id, vec![0xfb, 0xff]);
    assert_eq!((draft.credential_id.as_str(), draft.counter), ("-_8", 9));
}

#[test]
fn registration_outcomes_lead_on() {
    let refused = finish_registration::take_outcome(registration(), Ok(None));
    assert!(matches!(
        refused,
        Progress::Act(_, Action::CompleteError { code: ReceiptCode::InvalidCredential, .. })
    ));
    let broken = finish_registration::take_outcome(registration(), Err("bad state".to_owned()));
    let Progress::Failed(failure) = broken else { panic!("no failure") };
    assert_eq!(failure, Failure::Representation("bad state".to_owned()));
    let taken = finish_registration::take_outcome(registration(), Ok(Some(verified())));
    let Progress::Act(run, Action::Begin { .. }) = taken else { panic!("no transaction") };
    let finish_registration::Stage::Beginning(new, _) = run.stage else { panic!("no draft") };
    assert!(new.passkey_id.starts_with("pk_"));
    assert_eq!(new.passkey_id.len(), 35);
}

#[test]
fn authentication_outcomes_lead_on() {
    let task = || finish_authentication::Task {
        key: key(FINISH_AUTHENTICATION_OPERATION),
        request: FinishAuthenticationRequest {
            idempotency_key: "key-1".to_owned(),
            challenge_id: "pka_1".to_owned(),
            credential_json: "{}".to_owned(),
        },
        intent: [0; 32],
    };
    let ada = || "usr_ada".to_owned();
    let refused = finish_authentication::take_outcome(task(), ada(), Ok(None));
    assert!(matches!(
        refused,
        Progress::Act(_, Action::CompleteError { code: ReceiptCode::InvalidCredentials, .. })
    ));
    let broken = finish_authentication::take_outcome(task(), ada(), Err("bad".to_owned()));
    let Progress::Failed(failure) = broken else { panic!("no failure") };
    assert_eq!(failure, Failure::Representation("bad".to_owned()));
}

#[test]
fn an_applied_result_replaces_the_passkey() {
    let id = "pk_1".to_owned();
    let next = replace_passkey(&id, 7, Ok(Some("{\"p\":2}".to_owned())));
    let Update::Act(
        UpdateStage::UpdatingPasskey { passkey_id: used },
        Action::UpdatePasskey { passkey_id, passkey, sign_count },
    ) = next
    else {
        panic!("no update")
    };
    assert_eq!((used.as_str(), passkey_id.as_str()), ("pk_1", "pk_1"));
    assert_eq!((passkey.as_str(), sign_count), ("{\"p\":2}", 7));
    assert!(matches!(
        replace_passkey(&id, 7, Ok(None)),
        Update::Act(
            UpdateStage::RollingBack,
            Action::Rollback { label: "rollback mismatched passkey update" }
        )
    ));
    let Update::Failed(failure) = replace_passkey(&id, 7, Err("bad".to_owned())) else {
        panic!("no failure")
    };
    assert_eq!(failure, Failure::Representation("bad".to_owned()));
}

#[test]
fn a_receipt_completes_the_command() {
    let task = || revoke_passkey::Task {
        key: key(REVOKE_PASSKEY_OPERATION),
        request: RevokePasskeyRequest {
            idempotency_key: "key-1".to_owned(),
            subject: "usr_ada".to_owned(),
            passkey_id: "pk_1".to_owned(),
            expected_revision: "1".to_owned(),
        },
        expected_revision: 1,
        intent: [0; 32],
    };
    let response = || RevokePasskeyResponse {
        passkey_id: "pk_1".to_owned(),
        revoked: true,
        revision: "2".to_owned(),
        passkey_revision: "2".to_owned(),
    };
    let next = revoke_passkey::take_receipt(task(), response(), Ok(([5; 12], vec![6])));
    let Progress::Act(run, Action::CompleteSuccess { key, nonce, ciphertext }) = next else {
        panic!("not completed")
    };
    assert_eq!((key, nonce, ciphertext), (task().key, [5; 12], vec![6]));
    assert!(matches!(run.stage, revoke_passkey::Stage::Completing(kept) if kept == response()));
    let error = PasskeyPluginError::Random("no entropy".to_owned());
    let next = revoke_passkey::take_receipt(task(), response(), Err(error.clone()));
    let Progress::Failed(failure) = next else { panic!("no failure") };
    assert_eq!(failure, Failure::Plugin(error));
}
