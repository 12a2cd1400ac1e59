//! What is told of faults and failures, and what small functions give.

use vstd::prelude::*;

use crate::command::CommandKey;
use crate::contract::{
    BeginAuthenticationResponse, BeginRegistrationResponse, FinishAuthenticationResponse,
    FinishRegistrationResponse, Nullable, PasskeySummary, RevokePasskeyResponse,
};
use crate::failure::{Failure, PasskeyPluginError};
use crate::instant::{format_time, rfc3339, Timestamp};
use crate::passkeys::passkey_summary;
use crate::identifier::url_safe_base64;
use crate::laws::notation::{is_number, number, numbers_are_written_as_they_are};
use crate::rows::PasskeyRow;
use crate::storage::Action;

verus! {

/// A fault is told with what was being done and why it could not be.
pub proof fn faults_are_told_in_words(error: &PasskeyPluginError, message: String)
    requires
        call_ensures(PasskeyPluginError::message, (error,), message),
    ensures
        match *error {
            PasskeyPluginError::Database { operation, source } => message@ == operation@ + ": "@
                + source@,
            PasskeyPluginError::Random(why) => message@
                == "failed to generate secure random bytes: "@ + why@,
            PasskeyPluginError::SerializeReceipt(why) => message@
                == "failed to serialize idempotency receipt: "@ + why@,
            PasskeyPluginError::DeserializeReceipt(why) => message@
                == "failed to deserialize idempotency receipt: "@ + why@,
            PasskeyPluginError::ReceiptEncryption => message@
                == "failed to encrypt idempotency receipt"@,
            PasskeyPluginError::ReceiptDecryption => message@
                == "failed to decrypt idempotency receipt"@,
            PasskeyPluginError::Invariant(detail) => message@ == "Plugin invariant failed: "@
                + detail@,
        },
{
}

/// A failure is told in words, with the outside error where there is one; that of a dependency has
/// none of its own.
pub proof fn failures_are_told_in_words(failure: &Failure, detail: String, message: String)
    requires
        call_ensures(Failure::detail, (failure,), detail),
    ensures
        match *failure {
            Failure::Plugin(error) => call_ensures(
                PasskeyPluginError::message,
                (&error,),
                message,
            ) ==> detail@ == message@,
            Failure::Representation(why) => detail@
                == "invalid internal WebAuthn representation: "@ + why@,
            Failure::Timestamp(why) => detail@ == "failed to format passkey timestamp: "@ + why@,
            Failure::StartRegistration(why) => detail@
                == "failed to start WebAuthn registration: "@ + why@,
            Failure::StartAuthentication(why) => detail@
                == "failed to start WebAuthn authentication: "@ + why@,
            Failure::DirectoryOtherSubject => detail@
                == "Identity Directory returned another subject for passkey status"@,
            Failure::DirectoryUnknown(why) => detail@
                == "Identity Directory returned an unknown passkey status error: "@ + why@,
            Failure::IssuerRejected(why) => detail@
                == "Credential Issuer rejected verified passkey authentication: "@ + why@,
            Failure::CommandNotAdvanced => detail@
                == "passkey authentication command did not advance"@,
            Failure::NotActive => detail@ == "Passkey Auth is not active"@,
            Failure::DatabaseSecretRejected => detail@ == "passkey database secret was rejected"@,
            Failure::ReceiptSecretRejected => detail@
                == "passkey receipt encryption secret was rejected"@,
            Failure::ReceiptSecretTooShort => detail@
                == "passkey receipt encryption secret must contain at least 32 bytes"@,
            Failure::Preparation(why) => detail@ == why@,
            Failure::InvalidPlan(why) => detail@ == why@,
            Failure::Dependency => detail@.len() == 0,
        },
{
}

/// What the database was doing is told by the action that it could not perform.
pub proof fn database_faults_name_the_action(
    action: &Action,
    source: String,
    fault: PasskeyPluginError,
)
    requires
        call_ensures(Action::database_fault, (action, source), fault),
    ensures
        fault matches PasskeyPluginError::Database { operation, source: why } && why == source
            && match *action {
            Action::Begin { label } => operation@ == label@,
            Action::Commit { label } => operation@ == label@,
            Action::Rollback { label } => operation@ == label@,
            Action::PruneChallenges => operation@ == "prune passkey challenges"@,
            Action::PruneCommands { .. } => operation@ == "prune passkey command receipts"@,
            Action::ReserveCommand { .. } => operation@ == "reserve passkey command"@,
            Action::LoadCommand { .. } => operation@ == "load passkey command"@,
            Action::SetCommandStatus { .. } => operation@ == "advance passkey command"@,
            Action::CompleteSuccess { .. } => operation@ == "complete passkey command"@,
            Action::CompleteError { .. } => operation@ == "complete failed passkey command"@,
            Action::MarkIssuing { .. } => operation@
                == "mark verified passkey authentication issuing"@,
            Action::EnsureSubject { .. } => operation@ == "ensure passkey subject"@,
            Action::LockSubject { .. } => operation@ == "lock passkey subject"@,
            Action::LockSubjectOptional { .. } => operation@ == "lock optional passkey subject"@,
            Action::LoadSubject { .. } => operation@ == "load passkey subject"@,
            Action::AdvanceSubject { label, .. } => operation@ == label@,
            Action::LockPasskeys { .. } => operation@ == "lock active passkeys"@,
            Action::LoadPasskeys { .. } => operation@ == "load passkeys"@,
            Action::InsertPasskey(_) => operation@ == "insert verified passkey"@,
            Action::UpdatePasskey { .. } => operation@ == "update authenticated passkey"@,
            Action::LockPasskey { .. } => operation@ == "lock passkey for revocation"@,
            Action::RevokePasskey { .. } => operation@ == "revoke passkey"@,
            Action::InsertChallenge(_) => operation@ == "store passkey challenge"@,
            Action::LockChallenge { .. } => operation@ == "lock passkey challenge"@,
            Action::ConsumeChallenge { .. } => operation@ == "consume passkey challenge"@,
            Action::ReadDirectory { .. } => operation@ == "read directory status"@,
            Action::IssueSession(_) => operation@ == "issue session"@,
        },
{
}

/// A time is written for the years 0 to 9999 and as RFC 3339 has it; and a time some seconds later
/// is so many nanoseconds later, if a clock can show both.
pub proof fn times_are_moved_and_written(
    time: Timestamp,
    seconds: u64,
    later: Timestamp,
    can: bool,
    text: Result<String, Failure>,
)
    ensures
        call_ensures(Timestamp::can_reach, (time, seconds), can) ==> can == (time.unix_nanos
            >= -377_705_116_800_000_000_000 && time.unix_nanos + seconds * 1_000_000_000
            < 253_402_300_800_000_000_000),
        call_ensures(Timestamp::can_reach, (time, seconds), true) ==> call_requires(
            Timestamp::plus_seconds,
            (time, seconds),
        ),
        call_ensures(Timestamp::can_reach, (time, seconds), true) && call_ensures(
            Timestamp::plus_seconds,
            (time, seconds),
            later,
        ) ==> later.unix_nanos == time.unix_nanos + seconds * 1_000_000_000,
        call_ensures(format_time, (time,), text) ==> match text {
            Ok(text) => rfc3339(time.unix_nanos as int) == Ok::<Seq<char>, Seq<char>>(text@)
                && -62_167_219_200_000_000_000 <= time.unix_nanos < 253_402_300_800_000_000_000,
            Err(failure) => (failure matches Failure::Timestamp(error) && rfc3339(
                time.unix_nanos as int,
            ) == Err::<Seq<char>, Seq<char>>(error@)) && !(-62_167_219_200_000_000_000
                <= time.unix_nanos < 253_402_300_800_000_000_000),
        },
{
}

/// Whether a text that may be absent is that of an instant that may be absent.
pub open spec fn tells_instant(text: Nullable<String>, time: Option<Timestamp>) -> bool {
    match (text.0, time) {
        (None, None) => true,
        (Some(text), Some(time)) => rfc3339(time.unix_nanos as int) == Ok::<Seq<char>, Seq<char>>(
            text@,
        ),
        _ => false,
    }
}

/// What is told of a stored passkey is what its row holds, each in its place; it fails exactly
/// where a time of it has no text.
pub proof fn passkeys_are_told_as_they_are_stored(
    row: &PasskeyRow,
    r: Result<PasskeySummary, Failure>,
)
    requires
        call_ensures(passkey_summary, (row,), r),
    ensures
        match r {
            Ok(summary) => {
                &&& summary.passkey_id@ == row.passkey_id@
                &&& summary.label@ == row.label@
                &&& summary.credential_id@ == url_safe_base64(row.credential_id@)
                &&& row.sign_count >= 0 ==> is_number(summary.sign_count@) && number(
                    summary.sign_count@,
                ) == row.sign_count
                &&& row.revision >= 0 ==> is_number(summary.revision@) && number(
                    summary.revision@,
                ) == row.revision
                &&& rfc3339(row.created_at.unix_nanos as int) == Ok::<Seq<char>, Seq<char>>(
                    summary.created_at@,
                )
                &&& tells_instant(summary.last_used_at, row.last_used_at)
                &&& tells_instant(summary.revoked_at, row.revoked_at)
            },
            Err(failure) => failure matches Failure::Timestamp(error) && {
                let why = Err::<Seq<char>, Seq<char>>(error@);
                ||| rfc3339(row.created_at.unix_nanos as int) == why
                ||| row.last_used_at matches Some(time) && rfc3339(time.unix_nanos as int) == why
                ||| row.revoked_at matches Some(time) && rfc3339(time.unix_nanos as int) == why
            },
        },
{
    numbers_are_written_as_they_are(row.sign_count as int);
    numbers_are_written_as_they_are(row.revision as int);
}

/// A copy is the same.
pub proof fn copies_are_the_same(
    a: &BeginRegistrationResponse,
    b: &BeginAuthenticationResponse,
    c: &FinishRegistrationResponse,
    d: &FinishAuthenticationResponse,
    e: &RevokePasskeyResponse,
    f: &PasskeySummary,
    g: &Nullable<String>,
    h: &CommandKey,
)
    ensures
        forall|r: Nullable<String>| call_ensures(Nullable::<String>::copy, (g,), r) ==> r == *g,
        forall|r: CommandKey| call_ensures(CommandKey::copy, (h,), r) ==> r == *h,
        forall|r: BeginRegistrationResponse|
            call_ensures(BeginRegistrationResponse::copy, (a,), r) ==> r == *a,
        forall|r: BeginAuthenticationResponse|
            call_ensures(BeginAuthenticationResponse::copy, (b,), r) ==> r == *b,
        forall|r: FinishRegistrationResponse|
            call_ensures(FinishRegistrationResponse::copy, (c,), r) ==> r == *c,
        forall|r: FinishAuthenticationResponse|
            call_ensures(FinishAuthenticationResponse::copy, (d,), r) ==> r == *d,
        forall|r: RevokePasskeyResponse|
            call_ensures(RevokePasskeyResponse::copy, (e,), r) ==> r == *e,
        forall|r: PasskeySummary| call_ensures(PasskeySummary::copy, (f,), r) ==> r == *f,
{
}

/// The names of a nullable value's schema are made of those of the value.
pub proof fn nullable_schemas_are_named_by_the_value(inner: &str, name: String)
    ensures
        call_ensures(Nullable::<String>::schema_name, (inner,), name) ==> name@ == "Nullable_"@
            + inner@,
        call_ensures(Nullable::<String>::schema_id, (inner,), name) ==> name@ == "Nullable<"@
            + inner@ + ">"@,
{
}

} // verus!
