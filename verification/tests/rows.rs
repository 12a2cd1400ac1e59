use lenso_auth_passkey::command::{
    begin_authentication_error, begin_registration_error, claim_reserved, claim_stored,
    finish_authentication_error, finish_registration_error, revoke_error, CommandClaim,
    CommandKey, CommandRow, CommandStatus, ReceiptCode,
};
use lenso_auth_passkey::contract::{
    BeginAuthenticationError, BeginRegistrationError, FinishAuthenticationError,
    FinishRegistrationError, RevokePasskeyError,
};
use lenso_auth_passkey::failure::{Failure, PasskeyPluginError};
use lenso_auth_passkey::instant::Timestamp;
use lenso_auth_passkey::rows::{
    decode_inserted, decode_revocable, ChallengeColumns, PasskeyColumns, SubjectColumns,
};
use lenso_auth_passkey::storage::{Action, ChallengeKind};

fn row(status: &str) -> CommandRow {
    CommandRow {
        intent_hash: Ok(vec![1, 2, 3]),
        status: Ok(status.to_owned()),
        response_nonce: Ok(vec![4]),
        response_ciphertext: Ok(vec![5]),
        error_code: Ok("disabled".to_owned()),
    }
}

fn database(operation: &'static str) -> PasskeyPluginError {
    PasskeyPluginError::Database { operation, source: "broken".to_owned() }
}

#[test]
fn a_reservation_is_claimed_once() {
    assert_eq!(claim_reserved(1), Some(CommandClaim::Claimed));
    assert_eq!(claim_reserved(0), None);
}

#[test]
fn stored_commands_are_replayed_refused_or_in_progress() {
    assert_eq!(
        claim_stored(row("completed_success"), &[1, 2, 3]),
        Ok(CommandClaim::CompletedSuccess { nonce: vec![4], ciphertext: vec![5] })
    );
    assert_eq!(
        claim_stored(row("completed_error"), &[1, 2, 3]),
        Ok(CommandClaim::CompletedError("disabled".to_owned()))
    );
    for status in ["reserved", "verifying", "issuing", "unheard-of"] {
        assert_eq!(claim_stored(row(status), &[1, 2, 3]), Ok(CommandClaim::InProgress));
    }
    for status in ["completed_success", "completed_error", "reserved"] {
        assert_eq!(claim_stored(row(status), &[1, 2, 4]), Ok(CommandClaim::Conflict));
        assert_eq!(claim_stored(row(status), &[1, 2]), Ok(CommandClaim::Conflict));
    }
}

#[test]
fn only_the_columns_that_are_needed_are_read() {
    let broken = || "broken".to_owned();
    let mut value = row("completed_success");
    value.intent_hash = Err(broken());
    assert_eq!(
        claim_stored(value, &[1, 2, 3]),
        Err(database("decode passkey command intent"))
    );
    let mut value = row("completed_success");
    value.status = Err(broken());
    assert_eq!(claim_stored(value, &[9]), Ok(CommandClaim::Conflict));
    let mut value = row("completed_success");
    value.status = Err(broken());
    assert_eq!(
        claim_stored(value, &[1, 2, 3]),
        Err(database("decode passkey command status"))
    );
    let mut value = row("completed_success");
    value.response_nonce = Err(broken());
    value.response_ciphertext = Err(broken());
    assert_eq!(
        claim_stored(value, &[1, 2, 3]),
        Err(database("decode passkey response nonce"))
    );
    let mut value = row("completed_success");
    value.response_ciphertext = Err(broken());
    value.error_code = Err(broken());
    assert_eq!(
        claim_stored(value, &[1, 2, 3]),
        Err(database("decode passkey response ciphertext"))
    );
    let mut value = row("completed_error");
    value.response_nonce = Err(broken());
    value.error_code = Err(broken());
    assert_eq!(
        claim_stored(value, &[1, 2, 3]),
        Err(database("decode passkey command error"))
    );
}

#[test]
fn codes_read_back_as_their_errors() {
    let codes = [
        (ReceiptCode::Disabled, "disabled"),
        (ReceiptCode::RevisionConflict, "revision_conflict"),
        (ReceiptCode::TooManyPasskeys, "too_many_passkeys"),
        (ReceiptCode::InvalidCredentials, "invalid_credentials"),
        (ReceiptCode::InvalidRequest, "invalid_request"),
        (ReceiptCode::ChallengeExpired, "challenge_expired"),
        (ReceiptCode::ChallengeUsed, "challenge_used"),
        (ReceiptCode::InvalidCredential, "invalid_credential"),
        (ReceiptCode::CredentialExists, "credential_exists"),
        (ReceiptCode::PasskeyNotFound, "passkey_not_found"),
    ];
    for (code, text) in codes {
        assert_eq!(code.as_str(), text);
    }
    assert_eq!(begin_registration_error("disabled"), Ok(BeginRegistrationError::Disabled));
    assert_eq!(
        begin_registration_error("revision_conflict"),
        Ok(BeginRegistrationError::RevisionConflict)
    );
    assert_eq!(
        begin_registration_error("too_many_passkeys"),
        Ok(BeginRegistrationError::TooManyPasskeys)
    );
    assert_eq!(
        begin_authentication_error("invalid_credentials"),
        Ok(BeginAuthenticationError::InvalidCredentials)
    );
    assert_eq!(
        [
            "invalid_request",
            "disabled",
            "challenge_expired",
            "challenge_used",
            "invalid_credential",
            "credential_exists",
            "revision_conflict",
        ]
        .map(finish_registration_error),
        [
            Ok(FinishRegistrationError::InvalidRequest),
            Ok(FinishRegistrationError::Disabled),
            Ok(FinishRegistrationError::ChallengeExpired),
            Ok(FinishRegistrationError::ChallengeUsed),
            Ok(FinishRegistrationError::InvalidCredential),
            Ok(FinishRegistrationError::CredentialExists),
            Ok(FinishRegistrationError::RevisionConflict),
        ]
    );
    assert_eq!(
        [
            "invalid_request",
            "invalid_credentials",
            "challenge_expired",
            "challenge_used",
            "disabled",
        ]
        .map(finish_authentication_error),
        [
            Ok(FinishAuthenticationError::InvalidRequest),
            Ok(FinishAuthenticationError::InvalidCredentials),
            Ok(FinishAuthenticationError::ChallengeExpired),
            Ok(FinishAuthenticationError::ChallengeUsed),
            Ok(FinishAuthenticationError::Disabled),
        ]
    );
    assert_eq!(
        ["disabled", "passkey_not_found", "revision_conflict"].map(revoke_error),
        [
            Ok(RevokePasskeyError::Disabled),
            Ok(RevokePasskeyError::PasskeyNotFound),
            Ok(RevokePasskeyError::RevisionConflict),
        ]
    );
}

#[test]
fn unknown_codes_are_faults() {
    let fault = |error: PasskeyPluginError| error.message();
    assert_eq!(
        begin_registration_error("invalid_request").map_err(fault),
        Err("Plugin invariant failed: unknown begin-registration receipt error".to_owned())
    );
    assert_eq!(
        begin_authentication_error("disabled").map_err(fault),
        Err("Plugin invariant failed: unknown begin-authentication receipt error".to_owned())
    );
    assert_eq!(
        finish_registration_error("").map_err(fault),
        Err("Plugin invariant failed: unknown finish-registration receipt error".to_owned())
    );
    assert_eq!(
        finish_authentication_error("x").map_err(fault),
        Err("Plugin invariant failed: unknown finish-authentication receipt error".to_owned())
    );
    assert_eq!(
        revoke_error("x").map_err(fault),
        Err("Plugin invariant failed: unknown revoke-passkey receipt error".to_owned())
    );
}

#[test]
fn statuses_and_kinds_are_stored_by_name() {
    let statuses = [
        CommandStatus::Reserved,
        CommandStatus::Verifying,
        CommandStatus::Issuing,
        CommandStatus::CompletedSuccess,
        CommandStatus::CompletedError,
    ];
    assert_eq!(
        statuses.map(CommandStatus::as_str),
        ["reserved", "verifying", "issuing", "completed_success", "completed_error"]
    );
    assert_eq!(ChallengeKind::Registration.as_str(), "registration");
    assert_eq!(ChallengeKind::Authentication.as_str(), "authentication");
}

#[test]
fn a_fault_names_what_the_database_was_doing() {
    let key = CommandKey {
        caller: "c".to_owned(),
        operation: "o",
        idempotency_key: "k".to_owned(),
    };
    let text = |action: Action| action.database_fault("gone".to_owned()).message();
    assert_eq!(text(Action::PruneChallenges), "prune passkey challenges: gone");
    assert_eq!(
        text(Action::ReserveCommand { key: key.copy(), intent: [0; 32] }),
        "reserve passkey command: gone"
    );
    assert_eq!(text(Action::LoadCommand { key }), "load passkey command: gone");
    assert_eq!(text(Action::Commit { label: "commit it" }), "commit it: gone");
    assert_eq!(
        text(Action::LockSubjectOptional { subject: "s".to_owned() }),
        "lock optional passkey subject: gone"
    );
}

#[test]
fn failures_have_their_details() {
    let text = |s: &str| s.to_owned();
    assert_eq!(
        Failure::Plugin(PasskeyPluginError::Random(text("none"))).detail(),
        "failed to generate secure random bytes: none"
    );
    assert_eq!(
        PasskeyPluginError::SerializeReceipt(text("x")).message(),
        "failed to serialize idempotency receipt: x"
    );
    assert_eq!(
        PasskeyPluginError::DeserializeReceipt(text("x")).message(),
        "failed to deserialize idempotency receipt: x"
    );
    assert_eq!(
        PasskeyPluginError::ReceiptEncryption.message(),
        "failed to encrypt idempotency receipt"
    );
    assert_eq!(
        PasskeyPluginError::ReceiptDecryption.message(),
        "failed to decrypt idempotency receipt"
    );
    let details: Vec<String> = [
        Failure::Representation(text("x")),
        Failure::StartRegistration(text("x")),
        Failure::StartAuthentication(text("x")),
        Failure::DirectoryOtherSubject,
        Failure::DirectoryUnknown(text("x")),
        Failure::IssuerRejected(text("x")),
        Failure::CommandNotAdvanced,
        Failure::NotActive,
        Failure::DatabaseSecretRejected,
        Failure::ReceiptSecretRejected,
        Failure::ReceiptSecretTooShort,
        Failure::Preparation(text("x")),
        Failure::InvalidPlan(text("x")),
        Failure::Dependency,
    ]
    .iter()
    .map(Failure::detail)
    .collect();
    assert_eq!(
        details,
        [
            "invalid internal WebAuthn representation: x",
            "failed to start WebAuthn registration: x",
            "failed to start WebAuthn authentication: x",
            "Identity Directory returned another subject for passkey status",
            "Identity Directory returned an unknown passkey status error: x",
            "Credential Issuer rejected verified passkey authentication: x",
            "passkey authentication command did not advance",
            "Passkey Auth is not active",
            "passkey database secret was rejected",
            "passkey receipt encryption secret was rejected",
            "passkey receipt encryption secret must contain at least 32 bytes",
            "x",
            "x",
            "",
        ]
    );
}

fn passkey_columns() -> PasskeyColumns {
    PasskeyColumns {
        passkey_id: Ok("pk_one".to_owned()),
        credential_id: Ok(vec![1]),
        passkey: Ok("{}".to_owned()),
        label: Ok("laptop".to_owned()),
        sign_count: Ok(3),
        revision: Ok(2),
        created_at: Ok(Timestamp { unix_nanos: 1 }),
        last_used_at: Ok(None),
        revoked_at: Ok(Some(Timestamp { unix_nanos: 2 })),
    }
}

#[test]
fn rows_are_read_column_by_column() {
    let subject = SubjectColumns { user_id: Ok(7), revision: Ok(8) }.decode().expect("a row");
    assert_eq!((subject.user_id, subject.revision), (7, 8));
    let passkey = passkey_columns().decode().expect("a row");
    assert_eq!(passkey.passkey_id, "pk_one");
    assert_eq!(passkey.credential_id, [1]);
    assert_eq!(passkey.passkey, "{}");
    assert_eq!(passkey.label, "laptop");
    assert_eq!((passkey.sign_count, passkey.revision), (3, 2));
    assert_eq!(passkey.created_at.unix_nanos, 1);
    assert_eq!(passkey.last_used_at, None);
    assert_eq!(passkey.revoked_at, Some(Timestamp { unix_nanos: 2 }));
    let inserted = decode_inserted(Ok(1), Ok(Timestamp { unix_nanos: 9 })).expect("a row");
    assert_eq!((inserted.revision, inserted.created_at.unix_nanos), (1, 9));
    let revocable = decode_revocable(Ok(4), Ok(None)).expect("a row");
    assert_eq!((revocable.revision, revocable.revoked_at), (4, None));
}

#[test]
fn the_first_unreadable_column_is_told() {
    let broken = || "broken".to_owned();
    assert_eq!(
        SubjectColumns { user_id: Err(broken()), revision: Err(broken()) }.decode(),
        Err(database("decode WebAuthn user id"))
    );
    assert_eq!(
        SubjectColumns { user_id: Ok(1), revision: Err(broken()) }.decode(),
        Err(database("decode passkey subject revision"))
    );
    let mut columns = passkey_columns();
    columns.revoked_at = Err(broken());
    columns.label = Err(broken());
    assert_eq!(columns.decode(), Err(database("decode passkey label")));
    let mut columns = passkey_columns();
    columns.revoked_at = Err(broken());
    assert_eq!(columns.decode(), Err(database("decode passkey revocation")));
    let challenge = |consumed_at, caller_instance| ChallengeColumns {
        caller_instance,
        subject: Ok("s".to_owned()),
        expected_revision: Ok(0),
        state: Ok("{}".to_owned()),
        expires_at: Ok(Timestamp { unix_nanos: 1 }),
        consumed_at,
    };
    assert_eq!(
        challenge(Err(broken()), Err(broken())).decode(),
        Err(database("decode challenge caller"))
    );
    assert_eq!(
        challenge(Err(broken()), Ok("c".to_owned())).decode(),
        Err(database("decode challenge consumption"))
    );
    let row = challenge(Ok(None), Ok("c".to_owned())).decode().expect("a row");
    assert_eq!((row.caller_instance.as_str(), row.subject.as_str()), ("c", "s"));
    assert_eq!(
        decode_inserted(Err(broken()), Err(broken())),
        Err(database("decode registered passkey revision"))
    );
    assert_eq!(
        decode_inserted(Ok(1), Err(broken())),
        Err(database("decode registered passkey time"))
    );
    assert_eq!(
        decode_revocable(Err(broken()), Err(broken())),
        Err(database("decode revoked passkey revision"))
    );
    assert_eq!(
        decode_revocable(Ok(1), Err(broken())),
        Err(database("decode passkey revocation time"))
    );
}
