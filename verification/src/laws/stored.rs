//! How what is stored is written and read: receipts, codes, statuses and rows.

use vstd::prelude::*;
use vstd::utf8::encode_utf8;

use crate::command::{
    begin_authentication_error, begin_registration_error, claim_reserved, claim_stored,
    finish_authentication_error, finish_registration_error, open_receipt, revoke_error,
    CommandClaim, CommandKey, CommandRow, CommandStatus, ReceiptCode,
};
use crate::contract::{
    BeginAuthenticationError, BeginRegistrationError, FinishAuthenticationError,
    FinishRegistrationError, RevokePasskeyError,
};
use crate::failure::PasskeyPluginError;
use crate::instant::Timestamp;
use crate::receipt::{
    aes256_gcm_opened, aes256_gcm_sealed, intent_hash, receipt_aad, sealable, sha256,
    ReceiptCipher,
};
use crate::rows::{
    decode_inserted, decode_revocable, ChallengeColumns, ChallengeRow, InsertedPasskey,
    PasskeyColumns, PasskeyRow, RevocablePasskey, SubjectColumns, SubjectRow,
};
use crate::storage::ChallengeKind;

verus! {

/// Codes, statuses and kinds are stored under the names that the schema has for them.
pub proof fn names_are_stored_as_the_schema_has_them(
    code: ReceiptCode,
    status: CommandStatus,
    kind: ChallengeKind,
    r: &'static str,
)
    ensures
        call_ensures(ReceiptCode::as_str, (code,), r) ==> r@ == (match code {
            ReceiptCode::Disabled => "disabled"@,
            ReceiptCode::RevisionConflict => "revision_conflict"@,
            ReceiptCode::TooManyPasskeys => "too_many_passkeys"@,
            ReceiptCode::InvalidCredentials => "invalid_credentials"@,
            ReceiptCode::InvalidRequest => "invalid_request"@,
            ReceiptCode::ChallengeExpired => "challenge_expired"@,
            ReceiptCode::ChallengeUsed => "challenge_used"@,
            ReceiptCode::InvalidCredential => "invalid_credential"@,
            ReceiptCode::CredentialExists => "credential_exists"@,
            ReceiptCode::PasskeyNotFound => "passkey_not_found"@,
        }),
        call_ensures(ReceiptCode::as_str, (code,), r) ==> r@ == code.text(),
        call_ensures(CommandStatus::as_str, (status,), r) ==> r@ == (match status {
            CommandStatus::Reserved => "reserved"@,
            CommandStatus::Verifying => "verifying"@,
            CommandStatus::Issuing => "issuing"@,
            CommandStatus::CompletedSuccess => "completed_success"@,
            CommandStatus::CompletedError => "completed_error"@,
        }),
        call_ensures(CommandStatus::as_str, (status,), r) ==> r@ == status.text(),
        call_ensures(ChallengeKind::as_str, (kind,), r) ==> r@ == (match kind {
            ChallengeKind::Registration => "registration"@,
            ChallengeKind::Authentication => "authentication"@,
        }),
{
}

/// A stored code is read as the error of its name by the operations that have one, and is a fault
/// to the others.
pub proof fn codes_are_read_by_their_names(
    code: &str,
    a: Result<BeginRegistrationError, PasskeyPluginError>,
    b: Result<BeginAuthenticationError, PasskeyPluginError>,
    c: Result<FinishRegistrationError, PasskeyPluginError>,
    d: Result<FinishAuthenticationError, PasskeyPluginError>,
    e: Result<RevokePasskeyError, PasskeyPluginError>,
)
    ensures
        call_ensures(begin_registration_error, (code,), a) ==> match a {
            Ok(error) => match error {
                BeginRegistrationError::Disabled => code@ == "disabled"@,
                BeginRegistrationError::RevisionConflict => code@ == "revision_conflict"@,
                BeginRegistrationError::TooManyPasskeys => code@ == "too_many_passkeys"@,
                _ => false,
            },
            Err(fault) => fault is Invariant && code@ != "disabled"@ && code@
                != "revision_conflict"@ && code@ != "too_many_passkeys"@,
        },
        call_ensures(begin_authentication_error, (code,), b) ==> match b {
            Ok(error) => error is InvalidCredentials && code@ == "invalid_credentials"@,
            Err(fault) => fault is Invariant && code@ != "invalid_credentials"@,
        },
        call_ensures(finish_registration_error, (code,), c) ==> match c {
            Ok(error) => match error {
                FinishRegistrationError::InvalidRequest => code@ == "invalid_request"@,
                FinishRegistrationError::Disabled => code@ == "disabled"@,
                FinishRegistrationError::ChallengeExpired => code@ == "challenge_expired"@,
                FinishRegistrationError::ChallengeUsed => code@ == "challenge_used"@,
                FinishRegistrationError::InvalidCredential => code@ == "invalid_credential"@,
                FinishRegistrationError::CredentialExists => code@ == "credential_exists"@,
                FinishRegistrationError::RevisionConflict => code@ == "revision_conflict"@,
                _ => false,
            },
            Err(fault) => fault is Invariant && code@ != "invalid_request"@ && code@ != "disabled"@
                && code@ != "challenge_expired"@ && code@ != "challenge_used"@ && code@
                != "invalid_credential"@ && code@ != "credential_exists"@ && code@
                != "revision_conflict"@,
        },
        call_ensures(finish_authentication_error, (code,), d) ==> match d {
            Ok(error) => match error {
                FinishAuthenticationError::InvalidRequest => code@ == "invalid_request"@,
                FinishAuthenticationError::InvalidCredentials => code@ == "invalid_credentials"@,
                FinishAuthenticationError::ChallengeExpired => code@ == "challenge_expired"@,
                FinishAuthenticationError::ChallengeUsed => code@ == "challenge_used"@,
                FinishAuthenticationError::Disabled => code@ == "disabled"@,
                _ => false,
            },
            Err(fault) => fault is Invariant && code@ != "invalid_request"@ && code@
                != "invalid_credentials"@ && code@ != "challenge_expired"@ && code@
                != "challenge_used"@ && code@ != "disabled"@,
        },
        call_ensures(revoke_error, (code,), e) ==> match e {
            Ok(error) => match error {
                RevokePasskeyError::Disabled => code@ == "disabled"@,
                RevokePasskeyError::PasskeyNotFound => code@ == "passkey_not_found"@,
                RevokePasskeyError::RevisionConflict => code@ == "revision_conflict"@,
                _ => false,
            },
            Err(fault) => fault is Invariant && code@ != "disabled"@ && code@
                != "passkey_not_found"@ && code@ != "revision_conflict"@,
        },
{
}

/// A stored command means what its columns hold: another intent is a conflict, whatever else; a
/// completed one gives back its sealed response or its code; and any other is in progress. A column
/// that is needed and could not be read is a fault.
pub proof fn commands_mean_what_their_columns_hold(
    row: CommandRow,
    intent: &[u8],
    inserted: u64,
    r: Result<CommandClaim, PasskeyPluginError>,
    reserved: Option<CommandClaim>,
)
    ensures
        call_ensures(
            claim_reserved,
            (inserted,),
            reserved,
        ) ==> (reserved is Some <==> inserted == 1)
            && (reserved matches Some(claim) ==> claim is Claimed),
        call_ensures(claim_stored, (row, intent), r) ==> match r {
            Ok(CommandClaim::Conflict) => row.intent_hash matches Ok(stored) && stored@ != intent@,
            Ok(CommandClaim::Claimed) => false,
            Ok(CommandClaim::CompletedSuccess { nonce, ciphertext }) => {
                &&& row.intent_hash matches Ok(stored)
                &&& stored@ == intent@
                &&& row.status matches Ok(status)
                &&& status@ == "completed_success"@
                &&& row.response_nonce == Ok::<Vec<u8>, String>(nonce)
                &&& row.response_ciphertext == Ok::<Vec<u8>, String>(ciphertext)
            },
            Ok(CommandClaim::CompletedError(code)) => {
                &&& row.intent_hash matches Ok(stored)
                &&& stored@ == intent@
                &&& row.status matches Ok(status)
                &&& status@ == "completed_error"@
                &&& row.error_code == Ok::<String, String>(code)
            },
            Ok(CommandClaim::InProgress) => {
                &&& row.intent_hash matches Ok(stored)
                &&& stored@ == intent@
                &&& row.status matches Ok(status)
                &&& status@ != "completed_success"@
                &&& status@ != "completed_error"@
            },
            Err(fault) => if row.intent_hash is Err {
                blames(fault, "decode passkey command intent"@, row.intent_hash->Err_0)
            } else if row.status is Err {
                blames(fault, "decode passkey command status"@, row.status->Err_0)
            } else if row.status->Ok_0@ == "completed_success"@ {
                if row.response_nonce is Err {
                    blames(fault, "decode passkey response nonce"@, row.response_nonce->Err_0)
                } else {
                    row.response_ciphertext is Err && blames(
                        fault,
                        "decode passkey response ciphertext"@,
                        row.response_ciphertext->Err_0,
                    )
                }
            } else {
                row.status->Ok_0@ == "completed_error"@ && row.error_code is Err && blames(
                    fault,
                    "decode passkey command error"@,
                    row.error_code->Err_0,
                )
            },
        },
{
}

/// A receipt is sealed with the digest of the secret, under its nonce, and bound to caller,
/// operation and key with a NUL between them; and it is opened so, and only with a nonce of 12
/// bytes.
pub proof fn receipts_are_sealed_and_opened_for_their_command(
    secret: &[u8],
    cipher: &ReceiptCipher,
    derived: ReceiptCipher,
    key: &CommandKey,
    nonce: &[u8; 12],
    stored_nonce: &[u8],
    bytes: &[u8],
    aad: &[u8],
    sealed: Result<Vec<u8>, PasskeyPluginError>,
    drawn: Result<([u8; 12], Vec<u8>), PasskeyPluginError>,
    opened: Result<Vec<u8>, PasskeyPluginError>,
    bound: Vec<u8>,
    caller: &str,
    operation: &str,
    idempotency_key: &str,
    hash: [u8; 32],
)
    ensures
        call_ensures(ReceiptCipher::derive, (secret,), derived) ==> derived.key() == sha256(
            secret@,
        ),
        call_ensures(intent_hash, (bytes,), hash) ==> hash@ == sha256(bytes@),
        call_ensures(receipt_aad, (caller, operation, idempotency_key), bound) ==> bound@
            == encode_utf8(
            caller@ + seq!['\0'] + operation@ + seq!['\0'] + idempotency_key@,
        ),
        call_ensures(CommandKey::aad, (key,), bound) ==> bound@ == encode_utf8(
            key.caller@ + seq!['\0'] + key.operation@ + seq!['\0'] + key.idempotency_key@,
        ),
        call_ensures(ReceiptCipher::encrypt_with, (cipher, nonce, bytes, aad), sealed)
            ==> match sealed {
            Ok(ciphertext) => {
                &&& ciphertext@ == aes256_gcm_sealed(cipher.key(), nonce@, aad@, bytes@)
                &&& aes256_gcm_opened(cipher.key(), nonce@, aad@, ciphertext@) == Some(bytes@)
            },
            Err(fault) => fault is ReceiptEncryption && !sealable(aad@, bytes@),
        },
        call_ensures(ReceiptCipher::encrypt, (cipher, bytes, aad), drawn) ==> match drawn {
            Ok((nonce, ciphertext)) => {
                &&& ciphertext@ == aes256_gcm_sealed(cipher.key(), nonce@, aad@, bytes@)
                &&& aes256_gcm_opened(cipher.key(), nonce@, aad@, ciphertext@) == Some(bytes@)
            },
            Err(fault) => fault is Random || fault is ReceiptEncryption && !sealable(aad@, bytes@),
        },
        call_ensures(ReceiptCipher::decrypt, (cipher, stored_nonce, bytes, aad), opened)
            ==> match opened {
            Ok(response) => stored_nonce@.len() == 12 && aes256_gcm_opened(
                cipher.key(),
                stored_nonce@,
                aad@,
                bytes@,
            ) == Some(response@),
            Err(fault) => fault is ReceiptDecryption && (stored_nonce@.len() != 12
                || aes256_gcm_opened(cipher.key(), stored_nonce@, aad@, bytes@) is None),
        },
        call_ensures(open_receipt, (cipher, key, stored_nonce, bytes), opened) ==> {
            let bound = encode_utf8(
                key.caller@ + seq!['\0'] + key.operation@ + seq!['\0'] + key.idempotency_key@,
            );
            match opened {
                Ok(response) => stored_nonce@.len() == 12 && aes256_gcm_opened(
                    cipher.key(),
                    stored_nonce@,
                    bound,
                    bytes@,
                ) == Some(response@),
                Err(fault) => fault is ReceiptDecryption && (stored_nonce@.len() != 12
                    || aes256_gcm_opened(cipher.key(), stored_nonce@, bound, bytes@) is None),
            }
        },
{
}

/// Whether a fault is that a column could not be read, with what was read and why it could not be.
pub open spec fn blames(fault: PasskeyPluginError, reading: Seq<char>, why: String) -> bool {
    fault matches PasskeyPluginError::Database { operation, source } && operation@ == reading
        && source == why
}

/// A row is read column by column, each into its place; it is a fault exactly where a column could
/// not be read, and the first such column is blamed.
pub proof fn rows_are_read_column_by_column(
    subject: SubjectColumns,
    passkey: PasskeyColumns,
    challenge: ChallengeColumns,
    revision: Result<i64, String>,
    created_at: Result<Timestamp, String>,
    revoked_at: Result<Option<Timestamp>, String>,
    a: Result<SubjectRow, PasskeyPluginError>,
    b: Result<PasskeyRow, PasskeyPluginError>,
    c: Result<ChallengeRow, PasskeyPluginError>,
    d: Result<InsertedPasskey, PasskeyPluginError>,
    e: Result<RevocablePasskey, PasskeyPluginError>,
)
    ensures
        call_ensures(SubjectColumns::decode, (subject,), a) ==> match a {
            Ok(row) => {
                &&& subject.user_id == Ok::<u128, String>(row.user_id)
                &&& subject.revision == Ok::<i64, String>(row.revision)
            },
            Err(fault) => if subject.user_id is Err {
                blames(fault, "decode WebAuthn user id"@, subject.user_id->Err_0)
            } else if subject.revision is Err {
                blames(fault, "decode passkey subject revision"@, subject.revision->Err_0)
            } else {
                false
            },
        },
        call_ensures(PasskeyColumns::decode, (passkey,), b) ==> match b {
            Ok(row) => {
                &&& passkey.passkey_id == Ok::<String, String>(row.passkey_id)
                &&& passkey.credential_id == Ok::<Vec<u8>, String>(row.credential_id)
                &&& passkey.passkey == Ok::<String, String>(row.passkey)
                &&& passkey.label == Ok::<String, String>(row.label)
                &&& passkey.sign_count == Ok::<i64, String>(row.sign_count)
                &&& passkey.revision == Ok::<i64, String>(row.revision)
                &&& passkey.created_at == Ok::<Timestamp, String>(row.created_at)
                &&& passkey.last_used_at == Ok::<Option<Timestamp>, String>(row.last_used_at)
                &&& passkey.revoked_at == Ok::<Option<Timestamp>, String>(row.revoked_at)
            },
            Err(fault) => if passkey.passkey_id is Err {
                blames(fault, "decode passkey id"@, passkey.passkey_id->Err_0)
            } else if passkey.credential_id is Err {
                blames(fault, "decode passkey credential id"@, passkey.credential_id->Err_0)
            } else if passkey.passkey is Err {
                blames(fault, "decode passkey value"@, passkey.passkey->Err_0)
            } else if passkey.label is Err {
                blames(fault, "decode passkey label"@, passkey.label->Err_0)
            } else if passkey.sign_count is Err {
                blames(fault, "decode passkey sign count"@, passkey.sign_count->Err_0)
            } else if passkey.revision is Err {
                blames(fault, "decode passkey revision"@, passkey.revision->Err_0)
            } else if passkey.created_at is Err {
                blames(fault, "decode passkey creation time"@, passkey.created_at->Err_0)
            } else if passkey.last_used_at is Err {
                blames(fault, "decode passkey last use"@, passkey.last_used_at->Err_0)
            } else if passkey.revoked_at is Err {
                blames(fault, "decode passkey revocation"@, passkey.revoked_at->Err_0)
            } else {
                false
            },
        },
        call_ensures(ChallengeColumns::decode, (challenge,), c) ==> match c {
            Ok(row) => {
                &&& challenge.caller_instance == Ok::<String, String>(row.caller_instance)
                &&& challenge.subject == Ok::<String, String>(row.subject)
                &&& challenge.expected_revision == Ok::<i64, String>(row.expected_revision)
                &&& challenge.state == Ok::<String, String>(row.state)
                &&& challenge.expires_at == Ok::<Timestamp, String>(row.expires_at)
                &&& challenge.consumed_at == Ok::<Option<Timestamp>, String>(row.consumed_at)
            },
            Err(fault) => if challenge.caller_instance is Err {
                blames(fault, "decode challenge caller"@, challenge.caller_instance->Err_0)
            } else if challenge.subject is Err {
                blames(fault, "decode challenge subject"@, challenge.subject->Err_0)
            } else if challenge.expected_revision is Err {
                blames(fault, "decode challenge revision"@, challenge.expected_revision->Err_0)
            } else if challenge.state is Err {
                blames(fault, "decode challenge state"@, challenge.state->Err_0)
            } else if challenge.expires_at is Err {
                blames(fault, "decode challenge expiry"@, challenge.expires_at->Err_0)
            } else if challenge.consumed_at is Err {
                blames(fault, "decode challenge consumption"@, challenge.consumed_at->Err_0)
            } else {
                false
            },
        },
        call_ensures(decode_inserted, (revision, created_at), d) ==> match d {
            Ok(row) => {
                &&& revision == Ok::<i64, String>(row.revision)
                &&& created_at == Ok::<Timestamp, String>(row.created_at)
            },
            Err(fault) => if revision is Err {
                blames(fault, "decode registered passkey revision"@, revision->Err_0)
            } else if created_at is Err {
                blames(fault, "decode registered passkey time"@, created_at->Err_0)
            } else {
                false
            },
        },
        call_ensures(decode_revocable, (revision, revoked_at), e) ==> match e {
            Ok(row) => {
                &&& revision == Ok::<i64, String>(row.revision)
                &&& revoked_at == Ok::<Option<Timestamp>, String>(row.revoked_at)
            },
            Err(fault) => if revision is Err {
                blames(fault, "decode revoked passkey revision"@, revision->Err_0)
            } else if revoked_at is Err {
                blames(fault, "decode passkey revocation time"@, revoked_at->Err_0)
            } else {
                false
            },
        },
{
}

} // verus!
