//! Commands and their receipts: who reserved what, what became of it, what is replayed.

use vstd::prelude::*;
use vstd::string::*;
use vstd::utf8::encode_utf8;

use crate::contract::{
    BeginAuthenticationError, BeginRegistrationError, FinishAuthenticationError,
    FinishRegistrationError, RevokePasskeyError,
};
use crate::failure::PasskeyPluginError;
use crate::receipt::{aes256_gcm_opened, command_identity, receipt_aad, ReceiptCipher, NONCE_BYTES};
use crate::text::same_text;

verus! {

/// What names a command: one idempotency key of one caller for one operation.
#[derive(Clone, Debug, PartialEq, Eq)]
pub struct CommandKey {
    pub caller: String,
    pub operation: &'static str,
    pub idempotency_key: String,
}

/// The characters of a command's name.
#[verifier::ext_equal]
pub struct CommandKeyView {
    pub caller: Seq<char>,
    pub operation: Seq<char>,
    pub idempotency_key: Seq<char>,
}

impl View for CommandKey {
    type V = CommandKeyView;

    open spec fn view(&self) -> CommandKeyView {
        CommandKeyView {
            caller: self.caller@,
            operation: self.operation@,
            idempotency_key: self.idempotency_key@,
        }
    }
}

impl CommandKeyView {
    /// The associated data that binds a receipt to this command.
    pub open spec fn aad(self) -> Seq<u8> {
        encode_utf8(command_identity(self.caller, self.operation, self.idempotency_key))
    }
}

impl CommandKey {
    pub fn copy(&self) -> (r: CommandKey)
        ensures
            r == *self,
    {
        CommandKey {
            caller: self.caller.clone(),
            operation: self.operation,
            idempotency_key: self.idempotency_key.clone(),
        }
    }

    /// The associated data that binds a receipt to this command.
    pub fn aad(&self) -> (r: Vec<u8>)
        ensures
            r@ == self@.aad(),
    {
        receipt_aad(self.caller.as_str(), self.operation, self.idempotency_key.as_str())
    }
}

/// The domain error that a completed command holds.
#[derive(Clone, Copy, Debug, PartialEq, Eq, Structural)]
pub enum ReceiptCode {
    Disabled,
    RevisionConflict,
    TooManyPasskeys,
    InvalidCredentials,
    InvalidRequest,
    ChallengeExpired,
    ChallengeUsed,
    InvalidCredential,
    CredentialExists,
    PasskeyNotFound,
}

impl ReceiptCode {
    /// The code as it is stored.
    pub open spec fn text(self) -> Seq<char> {
        match self {
            ReceiptCode::Disabled => "disabled"@,
            ReceiptCode::RevisionConflict => "revision_conflict"@,
            ReceiptCode::TooManyPasskeys => "too_many_passkeys"@,
            ReceiptCode::InvalidCredentials => "invalid_credentials"@,
            ReceiptCode::InvalidRequest => "invalid_request"@,
            ReceiptCode::ChallengeExpired => "challenge_expired"@,
            ReceiptCode::ChallengeUsed => "challenge_used"@,
            ReceiptCode::InvalidCredential => "invalid_credential"@,
            ReceiptCode::CredentialExists => "credential_exists"@,
            ReceiptCode::PasskeyNotFound => "passkey_not_found"@,
        }
    }

    pub fn as_str(self) -> (r: &'static str)
        ensures
            r@ == self.text(),
    {
        match self {
            ReceiptCode::Disabled => "disabled",
            ReceiptCode::RevisionConflict => "revision_conflict",
            ReceiptCode::TooManyPasskeys => "too_many_passkeys",
            ReceiptCode::InvalidCredentials => "invalid_credentials",
            ReceiptCode::InvalidRequest => "invalid_request",
            ReceiptCode::ChallengeExpired => "challenge_expired",
            ReceiptCode::ChallengeUsed => "challenge_used",
            ReceiptCode::InvalidCredential => "invalid_credential",
            ReceiptCode::CredentialExists => "credential_exists",
            ReceiptCode::PasskeyNotFound => "passkey_not_found",
        }
    }
}

/// How far a command has come.
#[derive(Clone, Copy, Debug, PartialEq, Eq, Structural)]
pub enum CommandStatus {
    Reserved,
    Verifying,
    Issuing,
    CompletedSuccess,
    CompletedError,
}

impl CommandStatus {
    /// The status as it is stored.
    pub open spec fn text(self) -> Seq<char> {
        match self {
            CommandStatus::Reserved => "reserved"@,
            CommandStatus::Verifying => "verifying"@,
            CommandStatus::Issuing => "issuing"@,
            CommandStatus::CompletedSuccess => "completed_success"@,
            CommandStatus::CompletedError => "completed_error"@,
        }
    }

    pub fn as_str(self) -> (r: &'static str)
        ensures
            r@ == self.text(),
    {
        match self {
            CommandStatus::Reserved => "reserved",
            CommandStatus::Verifying => "verifying",
            CommandStatus::Issuing => "issuing",
            CommandStatus::CompletedSuccess => "completed_success",
            CommandStatus::CompletedError => "completed_error",
        }
    }
}

/// A stored command; each column is there, or the text of why it could not be read.
#[derive(Debug)]
pub struct CommandRow {
    pub intent_hash: Result<Vec<u8>, String>,
    pub status: Result<String, String>,
    pub response_nonce: Result<Vec<u8>, String>,
    pub response_ciphertext: Result<Vec<u8>, String>,
    pub error_code: Result<String, String>,
}

/// What an attempt to reserve a command found.
#[derive(Clone, Debug, PartialEq, Eq)]
pub enum CommandClaim {
    Claimed,
    CompletedSuccess { nonce: Vec<u8>, ciphertext: Vec<u8> },
    CompletedError(String),
    Conflict,
    InProgress,
}

/// What a stored command means to one who comes with an intent: another intent is a conflict, a
/// completed command is replayed, and any other is still in progress.
pub open spec fn claim_of(row: CommandRow, intent: Seq<u8>) -> Result<
    CommandClaim,
    PasskeyPluginError,
> {
    match row.intent_hash {
        Err(source) => Err(
            PasskeyPluginError::Database { operation: "decode passkey command intent", source },
        ),
        Ok(existing) => if existing@ != intent {
            Ok(CommandClaim::Conflict)
        } else {
            match row.status {
                Err(source) => Err(
                    PasskeyPluginError::Database {
                        operation: "decode passkey command status",
                        source,
                    },
                ),
                Ok(status) => if status@ == CommandStatus::CompletedSuccess.text() {
                    stored_success(row)
                } else if status@ == CommandStatus::CompletedError.text() {
                    match row.error_code {
                        Ok(code) => Ok(CommandClaim::CompletedError(code)),
                        Err(source) => Err(
                            PasskeyPluginError::Database {
                                operation: "decode passkey command error",
                                source,
                            },
                        ),
                    }
                } else {
                    Ok(CommandClaim::InProgress)
                },
            }
        },
    }
}

/// The sealed response that a successful command holds.
pub open spec fn stored_success(row: CommandRow) -> Result<CommandClaim, PasskeyPluginError> {
    match (row.response_nonce, row.response_ciphertext) {
        (Ok(nonce), Ok(ciphertext)) => Ok(CommandClaim::CompletedSuccess { nonce, ciphertext }),
        (Err(source), _) => Err(
            PasskeyPluginError::Database { operation: "decode passkey response nonce", source },
        ),
        (_, Err(source)) => Err(
            PasskeyPluginError::Database {
                operation: "decode passkey response ciphertext",
                source,
            },
        ),
    }
}

/// Whether two byte strings are the same.
pub(crate) fn same_bytes(a: &[u8], b: &[u8]) -> (r: bool)
    ensures
        r == (a@ == b@),
{
    if a.len() != b.len() {
        return false;
    }
    let mut i: usize = 0;
    while i < a.len()
        invariant
            i <= a.len(),
            a.len() == b.len(),
            forall|j: int| 0 <= j < i ==> a@[j] == b@[j],
        decreases a.len() - i,
    {
        if a[i] != b[i] {
            return false;
        }
        i = i + 1;
    }
    assert(a@ =~= b@);
    true
}

/// What an attempt to reserve a command found: it is this caller's if a row was inserted.
pub fn claim_reserved(inserted: u64) -> (r: Option<CommandClaim>)
    ensures
        r == (if inserted == 1 {
            Some(CommandClaim::Claimed)
        } else {
            None
        }),
{
    if inserted == 1 {
        Some(CommandClaim::Claimed)
    } else {
        None
    }
}

/// What a command that was already stored means to one who comes with `intent`.
pub fn claim_stored(row: CommandRow, intent: &[u8]) -> (r: Result<CommandClaim, PasskeyPluginError>)
    ensures
        r == claim_of(row, intent@),
{
    let existing = match row.intent_hash {
        Ok(existing) => existing,
        Err(source) => return Err(
            PasskeyPluginError::Database { operation: "decode passkey command intent", source },
        ),
    };
    if !same_bytes(existing.as_slice(), intent) {
        return Ok(CommandClaim::Conflict);
    }
    let status = match row.status {
        Ok(status) => status,
        Err(source) => return Err(
            PasskeyPluginError::Database { operation: "decode passkey command status", source },
        ),
    };
    if same_text(status.as_str(), "completed_success") {
        let nonce = match row.response_nonce {
            Ok(nonce) => nonce,
            Err(source) => return Err(
                PasskeyPluginError::Database { operation: "decode passkey response nonce", source },
            ),
        };
        let ciphertext = match row.response_ciphertext {
            Ok(ciphertext) => ciphertext,
            Err(source) => return Err(
                PasskeyPluginError::Database {
                    operation: "decode passkey response ciphertext",
                    source,
                },
            ),
        };
        Ok(CommandClaim::CompletedSuccess { nonce, ciphertext })
    } else if same_text(status.as_str(), "completed_error") {
        match row.error_code {
            Ok(code) => Ok(CommandClaim::CompletedError(code)),
            Err(source) => Err(
                PasskeyPluginError::Database { operation: "decode passkey command error", source },
            ),
        }
    } else {
        Ok(CommandClaim::InProgress)
    }
}

/// The bytes of the response that a receipt holds for a command, if they open.
pub open spec fn opened_receipt(
    receipt_key: Seq<u8>,
    command: CommandKeyView,
    nonce: Seq<u8>,
    ciphertext: Seq<u8>,
) -> Option<Seq<u8>> {
    if nonce.len() == NONCE_BYTES {
        aes256_gcm_opened(receipt_key, nonce, command.aad(), ciphertext)
    } else {
        None
    }
}

/// The bytes of the response that a receipt holds for `command`.
pub fn open_receipt(
    cipher: &ReceiptCipher,
    command: &CommandKey,
    nonce: &[u8],
    ciphertext: &[u8],
) -> (r: Result<Vec<u8>, PasskeyPluginError>)
    ensures
        match opened_receipt(cipher.key(), command@, nonce@, ciphertext@) {
            Some(bytes) => r is Ok && r->Ok_0@ == bytes,
            None => r == Err::<Vec<u8>, PasskeyPluginError>(PasskeyPluginError::ReceiptDecryption),
        },
{
    let aad = command.aad();
    cipher.decrypt(nonce, ciphertext, aad.as_slice())
}

/// The refusal that a code stands for, if it is one of begin-registration's.
pub open spec fn begin_registration_refusal(code: Seq<char>) -> Option<BeginRegistrationError> {
    if code == ReceiptCode::Disabled.text() {
        Some(BeginRegistrationError::Disabled)
    } else if code == ReceiptCode::RevisionConflict.text() {
        Some(BeginRegistrationError::RevisionConflict)
    } else if code == ReceiptCode::TooManyPasskeys.text() {
        Some(BeginRegistrationError::TooManyPasskeys)
    } else {
        None
    }
}

pub fn begin_registration_error(code: &str) -> (r: Result<
    BeginRegistrationError,
    PasskeyPluginError,
>)
    ensures
        r == (match begin_registration_refusal(code@) {
            Some(error) => Ok::<BeginRegistrationError, PasskeyPluginError>(error),
            None => Err(PasskeyPluginError::Invariant("unknown begin-registration receipt error")),
        }),
{
    if same_text(code, "disabled") {
        Ok(BeginRegistrationError::Disabled)
    } else if same_text(code, "revision_conflict") {
        Ok(BeginRegistrationError::RevisionConflict)
    } else if same_text(code, "too_many_passkeys") {
        Ok(BeginRegistrationError::TooManyPasskeys)
    } else {
        Err(PasskeyPluginError::Invariant("unknown begin-registration receipt error"))
    }
}

/// The refusal that a code stands for, if it is one of begin-authentication's.
pub open spec fn begin_authentication_refusal(code: Seq<char>) -> Option<BeginAuthenticationError> {
    if code == ReceiptCode::InvalidCredentials.text() {
        Some(BeginAuthenticationError::InvalidCredentials)
    } else {
        None
    }
}

pub fn begin_authentication_error(code: &str) -> (r: Result<
    BeginAuthenticationError,
    PasskeyPluginError,
>)
    ensures
        r == (match begin_authentication_refusal(code@) {
            Some(error) => Ok::<BeginAuthenticationError, PasskeyPluginError>(error),
            None => Err(
                PasskeyPluginError::Invariant("unknown begin-authentication receipt error"),
            ),
        }),
{
    if same_text(code, "invalid_credentials") {
        Ok(BeginAuthenticationError::InvalidCredentials)
    } else {
        Err(PasskeyPluginError::Invariant("unknown begin-authentication receipt error"))
    }
}

/// The refusal that a code stands for, if it is one of finish-registration's.
pub open spec fn finish_registration_refusal(code: Seq<char>) -> Option<FinishRegistrationError> {
    if code == ReceiptCode::InvalidRequest.text() {
        Some(FinishRegistrationError::InvalidRequest)
    } else if code == ReceiptCode::Disabled.text() {
        Some(FinishRegistrationError::Disabled)
    } else if code == ReceiptCode::ChallengeExpired.text() {
        Some(FinishRegistrationError::ChallengeExpired)
    } else if code == ReceiptCode::ChallengeUsed.text() {
        Some(FinishRegistrationError::ChallengeUsed)
    } else if code == ReceiptCode::InvalidCredential.text() {
        Some(FinishRegistrationError::InvalidCredential)
    } else if code == ReceiptCode::CredentialExists.text() {
        Some(FinishRegistrationError::CredentialExists)
    } else if code == ReceiptCode::RevisionConflict.text() {
        Some(FinishRegistrationError::RevisionConflict)
    } else {
        None
    }
}

pub fn finish_registration_error(code: &str) -> (r: Result<
    FinishRegistrationError,
    PasskeyPluginError,
>)
    ensures
        r == (match finish_registration_refusal(code@) {
            Some(error) => Ok::<FinishRegistrationError, PasskeyPluginError>(error),
            None => Err(PasskeyPluginError::Invariant("unknown finish-registration receipt error")),
        }),
{
    if same_text(code, "invalid_request") {
        Ok(FinishRegistrationError::InvalidRequest)
    } else if same_text(code, "disabled") {
        Ok(FinishRegistrationError::Disabled)
    } else if same_text(code, "challenge_expired") {
        Ok(FinishRegistrationError::ChallengeExpired)
    } else if same_text(code, "challenge_used") {
        Ok(FinishRegistrationError::ChallengeUsed)
    } else if same_text(code, "invalid_credential") {
        Ok(FinishRegistrationError::InvalidCredential)
    } else if same_text(code, "credential_exists") {
        Ok(FinishRegistrationError::CredentialExists)
    } else if same_text(code, "revision_conflict") {
        Ok(FinishRegistrationError::RevisionConflict)
    } else {
        Err(PasskeyPluginError::Invariant("unknown finish-registration receipt error"))
    }
}

/// The refusal that a code stands for, if it is one of finish-authentication's.
pub open spec fn finish_authentication_refusal(code: Seq<char>) -> Option<
    FinishAuthenticationError,
> {
    if code == ReceiptCode::InvalidRequest.text() {
        Some(FinishAuthenticationError::InvalidRequest)
    } else if code == ReceiptCode::InvalidCredentials.text() {
        Some(FinishAuthenticationError::InvalidCredentials)
    } else if code == ReceiptCode::ChallengeExpired.text() {
        Some(FinishAuthenticationError::ChallengeExpired)
    } else if code == ReceiptCode::ChallengeUsed.text() {
        Some(FinishAuthenticationError::ChallengeUsed)
    } else if code == ReceiptCode::Disabled.text() {
        Some(FinishAuthenticationError::Disabled)
    } else {
        None
    }
}

pub fn finish_authentication_error(code: &str) -> (r: Result<
    FinishAuthenticationError,
    PasskeyPluginError,
>)
    ensures
        r == (match finish_authentication_refusal(code@) {
            Some(error) => Ok::<FinishAuthenticationError, PasskeyPluginError>(error),
            None => Err(
                PasskeyPluginError::Invariant("unknown finish-authentication receipt error"),
            ),
        }),
{
    if same_text(code, "invalid_request") {
        Ok(FinishAuthenticationError::InvalidRequest)
    } else if same_text(code, "invalid_credentials") {
        Ok(FinishAuthenticationError::InvalidCredentials)
    } else if same_text(code, "challenge_expired") {
        Ok(FinishAuthenticationError::ChallengeExpired)
    } else if same_text(code, "challenge_used") {
        Ok(FinishAuthenticationError::ChallengeUsed)
    } else if same_text(code, "disabled") {
        Ok(FinishAuthenticationError::Disabled)
    } else {
        Err(PasskeyPluginError::Invariant("unknown finish-authentication receipt error"))
    }
}

/// The refusal that a code stands for, if it is one of revoke-passkey's.
pub open spec fn revoke_refusal(code: Seq<char>) -> Option<RevokePasskeyError> {
    if code == ReceiptCode::Disabled.text() {
        Some(RevokePasskeyError::Disabled)
    } else if code == ReceiptCode::PasskeyNotFound.text() {
        Some(RevokePasskeyError::PasskeyNotFound)
    } else if code == ReceiptCode::RevisionConflict.text() {
        Some(RevokePasskeyError::RevisionConflict)
    } else {
        None
    }
}

pub fn revoke_error(code: &str) -> (r: Result<RevokePasskeyError, PasskeyPluginError>)
    ensures
        r == (match revoke_refusal(code@) {
            Some(error) => Ok::<RevokePasskeyError, PasskeyPluginError>(error),
            None => Err(PasskeyPluginError::Invariant("unknown revoke-passkey receipt error")),
        }),
{
    if same_text(code, "disabled") {
        Ok(RevokePasskeyError::Disabled)
    } else if same_text(code, "passkey_not_found") {
        Ok(RevokePasskeyError::PasskeyNotFound)
    } else if same_text(code, "revision_conflict") {
        Ok(RevokePasskeyError::RevisionConflict)
    } else {
        Err(PasskeyPluginError::Invariant("unknown revoke-passkey receipt error"))
    }
}

} // verus!
