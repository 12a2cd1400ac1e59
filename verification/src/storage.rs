//! What an operation asks of the outside, and what it is answered.

use vstd::prelude::*;

use crate::authority::DirectoryReply;
use crate::command::{CommandKey, CommandRow, CommandStatus, ReceiptCode};
use crate::failure::{Failure, PasskeyPluginError};
use crate::instant::Timestamp;
use crate::rows::{ChallengeRow, InsertedPasskey, PasskeyRow, RevocablePasskey, SubjectRow};

verus! {

/// The ceremony that a challenge belongs to.
#[derive(Clone, Copy, Debug, PartialEq, Eq, Structural)]
pub enum ChallengeKind {
    Registration,
    Authentication,
}

impl ChallengeKind {
    /// The kind as it is stored.
    pub open spec fn text(self) -> Seq<char> {
        match self {
            ChallengeKind::Registration => "registration"@,
            ChallengeKind::Authentication => "authentication"@,
        }
    }

    pub fn as_str(self) -> (r: &'static str)
        ensures
            r@ == self.text(),
    {
        match self {
            ChallengeKind::Registration => "registration",
            ChallengeKind::Authentication => "authentication",
        }
    }
}

/// A challenge to store.
#[derive(Clone, Debug, PartialEq, Eq)]
pub struct NewChallenge {
    pub challenge_id: String,
    pub kind: ChallengeKind,
    pub caller: String,
    pub subject: String,
    pub expected_revision: i64,
    pub state: String,
    pub public_options: String,
    pub expires_at: Timestamp,
}

/// A verified passkey to store.
#[derive(Clone, Debug, PartialEq, Eq)]
pub struct NewPasskey {
    pub passkey_id: String,
    pub subject: String,
    pub credential_id: Vec<u8>,
    pub public_key: String,
    pub passkey: String,
    pub label: String,
    pub sign_count: i64,
}

/// A session to issue.
#[derive(Clone, Debug, PartialEq, Eq)]
pub struct NewSession {
    pub subject: String,
    pub actor_kind: &'static str,
    pub assurance: &'static str,
    pub audience: Vec<String>,
    pub expires_at: String,
}

/// A session that Credential Issuer made.
#[derive(Clone, Debug, PartialEq, Eq)]
pub struct Session {
    pub session_id: String,
    pub credential: String,
    pub expires_at: String,
}

/// What Credential Issuer answered.
#[derive(Clone, Debug, PartialEq, Eq)]
pub enum IssueReply {
    Issued(Session),
    /// The subject is disabled.
    Disabled,
    /// Another refusal.
    Rejected(String),
    /// The issuer failed at run time.
    Unavailable,
}

/// What an operation asks of the outside.
///
/// A transaction is open from `Begin` to the next `Commit` or `Rollback`; the statements between
/// them run in it, and so do not take effect before the `Commit`.
#[derive(Clone, Debug, PartialEq, Eq)]
pub enum Action {
    Begin { label: &'static str },
    Commit { label: &'static str },
    Rollback { label: &'static str },
    /// Delete the challenges that expired more than a day ago.
    PruneChallenges,
    /// Delete the commands that completed longer ago than the retention time.
    PruneCommands { receipt_ttl_seconds: u64 },
    /// Insert a command as reserved, unless there is one of this name.
    ReserveCommand { key: CommandKey, intent: [u8; 32] },
    /// Read a command.
    LoadCommand { key: CommandKey },
    /// Move a command from one status to another, if it has the first.
    SetCommandStatus { key: CommandKey, from: CommandStatus, to: CommandStatus },
    /// Complete a command that is not completed with a sealed response.
    CompleteSuccess { key: CommandKey, nonce: [u8; 12], ciphertext: Vec<u8> },
    /// Complete a command that is not completed with a refusal.
    CompleteError { key: CommandKey, code: ReceiptCode },
    /// Move a command from verification to issuing, if it is in verification.
    MarkIssuing { key: CommandKey },
    /// Insert a subject with this user handle, unless there is one of this name.
    EnsureSubject { subject: String, user_id: u128 },
    /// Lock a subject that is there.
    LockSubject { subject: String },
    /// Lock a subject that may be there.
    LockSubjectOptional { subject: String },
    /// Read a subject that may be there.
    LoadSubject { subject: String },
    /// Advance the revision of a subject's credential set by one.
    AdvanceSubject { subject: String, label: &'static str },
    /// Lock a subject's passkeys that are not revoked, oldest first.
    LockPasskeys { subject: String },
    /// Read a subject's passkeys, oldest first.
    LoadPasskeys { subject: String, include_revoked: bool },
    /// Insert a passkey, unless there is one with this credential.
    InsertPasskey(NewPasskey),
    /// Replace a passkey's value, keep the greater counter, and advance its revision by one.
    UpdatePasskey { passkey_id: String, passkey: String, sign_count: i64 },
    /// Lock one passkey of a subject, if it is there.
    LockPasskey { passkey_id: String, subject: String },
    /// Revoke a passkey and advance its revision by one.
    RevokePasskey { passkey_id: String },
    /// Insert a challenge.
    InsertChallenge(NewChallenge),
    /// Lock a challenge of a kind, if it is there.
    LockChallenge { challenge_id: String, kind: ChallengeKind },
    /// Mark a challenge as consumed by a command.
    ConsumeChallenge { challenge_id: String, operation: &'static str, idempotency_key: String },
    /// Ask Identity Directory for a subject's status.
    ReadDirectory { subject: String },
    /// Ask Credential Issuer for a session.
    IssueSession(NewSession),
}

impl Action {
    /// What the database was doing, for the message of a fault.
    pub open spec fn label(self) -> &'static str {
        match self {
            Action::Begin { label } => label,
            Action::Commit { label } => label,
            Action::Rollback { label } => label,
            Action::PruneChallenges => "prune passkey challenges",
            Action::PruneCommands { .. } => "prune passkey command receipts",
            Action::ReserveCommand { .. } => "reserve passkey command",
            Action::LoadCommand { .. } => "load passkey command",
            Action::SetCommandStatus { .. } => "advance passkey command",
            Action::CompleteSuccess { .. } => "complete passkey command",
            Action::CompleteError { .. } => "complete failed passkey command",
            Action::MarkIssuing { .. } => "mark verified passkey authentication issuing",
            Action::EnsureSubject { .. } => "ensure passkey subject",
            Action::LockSubject { .. } => "lock passkey subject",
            Action::LockSubjectOptional { .. } => "lock optional passkey subject",
            Action::LoadSubject { .. } => "load passkey subject",
            Action::AdvanceSubject { label, .. } => label,
            Action::LockPasskeys { .. } => "lock active passkeys",
            Action::LoadPasskeys { .. } => "load passkeys",
            Action::InsertPasskey(_) => "insert verified passkey",
            Action::UpdatePasskey { .. } => "update authenticated passkey",
            Action::LockPasskey { .. } => "lock passkey for revocation",
            Action::RevokePasskey { .. } => "revoke passkey",
            Action::InsertChallenge(_) => "store passkey challenge",
            Action::LockChallenge { .. } => "lock passkey challenge",
            Action::ConsumeChallenge { .. } => "consume passkey challenge",
            Action::ReadDirectory { .. } => "read directory status",
            Action::IssueSession(_) => "issue session",
        }
    }

    /// The fault of an action that the database could not perform.
    pub fn database_fault(&self, source: String) -> (r: PasskeyPluginError)
        ensures
            r == (PasskeyPluginError::Database { operation: self.label(), source }),
    {
        let operation = match self {
            Action::Begin { label } => label,
            Action::Commit { label } => label,
            Action::Rollback { label } => label,
            Action::PruneChallenges => "prune passkey challenges",
            Action::PruneCommands { .. } => "prune passkey command receipts",
            Action::ReserveCommand { .. } => "reserve passkey command",
            Action::LoadCommand { .. } => "load passkey command",
            Action::SetCommandStatus { .. } => "advance passkey command",
            Action::CompleteSuccess { .. } => "complete passkey command",
            Action::CompleteError { .. } => "complete failed passkey command",
            Action::MarkIssuing { .. } => "mark verified passkey authentication issuing",
            Action::EnsureSubject { .. } => "ensure passkey subject",
            Action::LockSubject { .. } => "lock passkey subject",
            Action::LockSubjectOptional { .. } => "lock optional passkey subject",
            Action::LoadSubject { .. } => "load passkey subject",
            Action::AdvanceSubject { label, .. } => label,
            Action::LockPasskeys { .. } => "lock active passkeys",
            Action::LoadPasskeys { .. } => "load passkeys",
            Action::InsertPasskey(_) => "insert verified passkey",
            Action::UpdatePasskey { .. } => "update authenticated passkey",
            Action::LockPasskey { .. } => "lock passkey for revocation",
            Action::RevokePasskey { .. } => "revoke passkey",
            Action::InsertChallenge(_) => "store passkey challenge",
            Action::LockChallenge { .. } => "lock passkey challenge",
            Action::ConsumeChallenge { .. } => "consume passkey challenge",
            Action::ReadDirectory { .. } => "read directory status",
            Action::IssueSession(_) => "issue session",
        };
        PasskeyPluginError::Database { operation, source }
    }
}

/// What the outside answered.
#[derive(Debug)]
pub enum Reply {
    /// It was done.
    Done,
    /// It was done, to so many rows.
    Affected(u64),
    Command(CommandRow),
    Subject(SubjectRow),
    MaybeSubject(Option<SubjectRow>),
    Passkeys(Vec<PasskeyRow>),
    Challenge(Option<ChallengeRow>),
    Inserted(Option<InsertedPasskey>),
    Revocable(Option<RevocablePasskey>),
    Revision(i64),
    Directory(DirectoryReply),
    Issue(IssueReply),
    /// The bytes of a response's JSON form.
    Encoded(Vec<u8>),
    /// It could not be done.
    Failed(PasskeyPluginError),
}

/// How an operation goes on.
#[derive(Debug)]
pub enum Progress<S, R, E> {
    /// Perform the action and resume with the reply.
    Act(S, Action),
    /// Encode the response and resume with its bytes.
    Encode(S, R),
    /// The operation is over.
    Finished(Result<R, E>),
    /// The operation was over before; its response has these bytes.
    Replay(Vec<u8>),
    /// The operation failed.
    Failed(Failure),
}

/// The failure for a reply that does not answer what was asked: the fault it reports, if any.
pub open spec fn stray(reply: Reply) -> Failure {
    match reply {
        Reply::Failed(error) => Failure::Plugin(error),
        _ => Failure::Plugin(PasskeyPluginError::Invariant("unexpected reply")),
    }
}

pub(crate) fn stray_reply(reply: Reply) -> (r: Failure)
    ensures
        r == stray(reply),
{
    match reply {
        Reply::Failed(error) => Failure::Plugin(error),
        _ => Failure::Plugin(PasskeyPluginError::Invariant("unexpected reply")),
    }
}

} // verus!
