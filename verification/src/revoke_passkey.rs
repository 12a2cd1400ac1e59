//! Revoking a passkey: it leaves the subject's credential set for good. A passkey that was
//! revoked before is left as it is.

use lenso_kernel::InvocationContext;
use vstd::prelude::*;

use crate::active::{ActivePasskey, ActiveView};
use crate::authority::{directory_status, status_of, DirectoryStatus};
use crate::command::{
    claim_of, claim_reserved, claim_stored, open_receipt, opened_receipt, revoke_error,
    revoke_refusal, CommandClaim, CommandKey, ReceiptCode,
};
use crate::contract::{
    RevokePasskeyError, RevokePasskeyRequest, RevokePasskeyResponse, REVOKE_PASSKEY_OPERATION,
};
use crate::failure::{Failure, PasskeyPluginError};
use crate::instant::Timestamp;
use crate::receipt::{aes256_gcm_sealed, intent_hash, sealable, sha256};
use crate::request::{revoke_revision, valid_revoke};
use crate::rows::SubjectRow;
use crate::storage::{stray, stray_reply, Action, Progress, Reply};
use crate::text::{integer_text, signed_text};

verus! {

/// What a run works on: the command, the request, the revision it expects, and its fingerprint.
#[derive(Debug)]
pub struct Task {
    pub key: CommandKey,
    pub request: RevokePasskeyRequest,
    pub expected_revision: i64,
    pub intent: [u8; 32],
}

/// How far a run has come.
#[derive(Debug)]
pub enum Stage {
    Reserving,
    Loading,
    ReadingDirectory,
    Beginning,
    LockingSubject,
    LockingPasskey(SubjectRow),
    Revoking,
    AdvancingSubject { passkey_revision: i64 },
    Encoding(RevokePasskeyResponse),
    Completing(RevokePasskeyResponse),
    Committing(RevokePasskeyResponse),
    RollingBack(ReceiptCode),
    Recording(ReceiptCode),
}

/// A run of revoke-passkey that waits for a reply.
#[derive(Debug)]
pub struct RevokePasskey {
    pub task: Task,
    pub stage: Stage,
}

pub type Next = Progress<RevokePasskey, RevokePasskeyResponse, RevokePasskeyError>;

/// The run goes on to a stage with an action.
pub open spec fn act(task: Task, stage: Stage, action: Action) -> Next {
    Progress::Act(RevokePasskey { task, stage }, action)
}

/// The run ends with a failure.
pub open spec fn failed(failure: Failure) -> Next {
    Progress::Failed(failure)
}

/// The run ends in a refusal.
pub open spec fn finished(error: RevokePasskeyError) -> Next {
    Progress::Finished(Err(error))
}

/// The run ends in the refusal that a code stands for.
pub open spec fn refused(code: Seq<char>) -> Next {
    match revoke_refusal(code) {
        Some(error) => finished(error),
        None => failed(
            Failure::Plugin(
                PasskeyPluginError::Invariant("unknown revoke-passkey receipt error"),
            ),
        ),
    }
}

/// The command is completed with a refusal.
pub open spec fn record(task: Task, code: ReceiptCode) -> Next {
    act(task, Stage::Recording(code), Action::CompleteError { key: task.key, code })
}

/// The transaction is abandoned, and then the command completed with a refusal.
pub open spec fn roll_back(task: Task, code: ReceiptCode, label: &'static str) -> Next {
    act(task, Stage::RollingBack(code), Action::Rollback { label })
}

/// The command is this run's: the subject's status is asked for.
pub open spec fn proceed(task: Task) -> Next {
    act(task, Stage::ReadingDirectory, Action::ReadDirectory { subject: task.request.subject })
}

/// What a claim on the command leads to.
pub open spec fn claimed(
    active: ActiveView,
    task: Task,
    claim: Result<CommandClaim, PasskeyPluginError>,
    next: Next,
) -> bool {
    match claim {
        Err(error) => next == failed(Failure::Plugin(error)),
        Ok(CommandClaim::Claimed) => next == proceed(task),
        Ok(CommandClaim::CompletedSuccess { nonce, ciphertext }) => match opened_receipt(
            active.receipt_key,
            task.key@,
            nonce@,
            ciphertext@,
        ) {
            Some(bytes) => next matches Progress::Replay(replayed) && replayed@ == bytes,
            None => next == failed(Failure::Plugin(PasskeyPluginError::ReceiptDecryption)),
        },
        Ok(CommandClaim::CompletedError(code)) => next == refused(code@),
        Ok(CommandClaim::Conflict) => next == finished(RevokePasskeyError::IdempotencyConflict),
        Ok(CommandClaim::InProgress) => next == finished(
            RevokePasskeyError::OperationInProgress,
        ),
    }
}

/// The response is handed out for encoding: whether this run revoked the passkey, and the
/// revisions of the credential set and of the passkey.
pub open spec fn answered(
    task: Task,
    revoked: bool,
    revision: i64,
    passkey_revision: i64,
    next: Next,
) -> bool {
    &&& next matches Progress::Encode(run, response)
    &&& run == (RevokePasskey { task, stage: Stage::Encoding(response) })
    &&& response.passkey_id == task.request.passkey_id
    &&& response.revoked == revoked
    &&& response.revision@ == integer_text(revision as int)
    &&& response.passkey_revision@ == integer_text(passkey_revision as int)
}

/// What the sealed response leads to: the command is completed with it.
pub open spec fn with_receipt(
    task: Task,
    response: RevokePasskeyResponse,
    receipt: Result<([u8; 12], Vec<u8>), PasskeyPluginError>,
) -> Next {
    match receipt {
        Ok((nonce, ciphertext)) => act(
            task,
            Stage::Completing(response),
            Action::CompleteSuccess { key: task.key, nonce, ciphertext },
        ),
        Err(error) => failed(Failure::Plugin(error)),
    }
}

/// The command is completed with the response, sealed to the command.
pub open spec fn sealed(
    active: ActiveView,
    task: Task,
    response: RevokePasskeyResponse,
    bytes: Seq<u8>,
    next: Next,
) -> bool {
    match next {
        Progress::Act(run, Action::CompleteSuccess { key, nonce, ciphertext }) => {
            &&& run == (RevokePasskey { task, stage: Stage::Completing(response) })
            &&& key == task.key
            &&& ciphertext@ == aes256_gcm_sealed(
                active.receipt_key,
                nonce@,
                task.key@.aad(),
                bytes,
            )
            &&& opened_receipt(active.receipt_key, task.key@, nonce@, ciphertext@) == Some(bytes)
        },
        Progress::Failed(Failure::Plugin(PasskeyPluginError::ReceiptEncryption)) => !sealable(
            task.key@.aad(),
            bytes,
        ),
        Progress::Failed(Failure::Plugin(error)) => error is Random,
        _ => false,
    }
}

/// How a run goes on from a reply.
pub open spec fn advances(
    active: ActiveView,
    run: RevokePasskey,
    reply: Reply,
    next: Next,
) -> bool {
    let task = run.task;
    match (run.stage, reply) {
        (Stage::Reserving, Reply::Affected(inserted)) => next == (if inserted == 1 {
            proceed(task)
        } else {
            act(task, Stage::Loading, Action::LoadCommand { key: task.key })
        }),
        (Stage::Loading, Reply::Command(row)) => claimed(
            active,
            task,
            claim_of(row, task.intent@),
            next,
        ),
        (Stage::ReadingDirectory, Reply::Directory(answer)) => next == (match status_of(
            answer,
            task.request.subject@,
        ) {
            Err(failure) => failed(failure),
            Ok(DirectoryStatus::Active) => act(
                task,
                Stage::Beginning,
                Action::Begin { label: "begin passkey revocation transaction" },
            ),
            Ok(_) => record(task, ReceiptCode::Disabled),
        }),
        (Stage::Beginning, Reply::Done) => next == act(
            task,
            Stage::LockingSubject,
            Action::LockSubjectOptional { subject: task.request.subject },
        ),
        (Stage::LockingSubject, Reply::MaybeSubject(subject)) => next == (match subject {
            None => roll_back(
                task,
                ReceiptCode::PasskeyNotFound,
                "rollback missing revocation subject",
            ),
            Some(subject) => if subject.revision != task.expected_revision {
                roll_back(
                    task,
                    ReceiptCode::RevisionConflict,
                    "rollback revocation revision conflict",
                )
            } else {
                act(
                    task,
                    Stage::LockingPasskey(subject),
                    Action::LockPasskey {
                        passkey_id: task.request.passkey_id,
                        subject: task.request.subject,
                    },
                )
            },
        }),
        (Stage::LockingPasskey(subject), Reply::Revocable(row)) => match row {
            None => next == roll_back(
                task,
                ReceiptCode::PasskeyNotFound,
                "rollback missing passkey revocation",
            ),
            Some(row) => if row.revoked_at is None {
                next == act(
                    task,
                    Stage::Revoking,
                    Action::RevokePasskey { passkey_id: task.request.passkey_id },
                )
            } else {
                answered(task, false, subject.revision, row.revision, next)
            },
        },
        (Stage::Revoking, Reply::Revision(passkey_revision)) => next == act(
            task,
            Stage::AdvancingSubject { passkey_revision },
            Action::AdvanceSubject {
                subject: task.request.subject,
                label: "advance revoked passkey collection revision",
            },
        ),
        (Stage::AdvancingSubject { passkey_revision }, Reply::Revision(revision)) => answered(
            task,
            true,
            revision,
            passkey_revision,
            next,
        ),
        (Stage::Encoding(response), Reply::Encoded(bytes)) => sealed(
            active,
            task,
            response,
            bytes@,
            next,
        ),
        (Stage::Completing(response), Reply::Affected(changed)) => next == (if changed == 1 {
            act(
                task,
                Stage::Committing(response),
                Action::Commit { label: "commit passkey revocation" },
            )
        } else {
            failed(
                Failure::Plugin(
                    PasskeyPluginError::Invariant("passkey command was not completable"),
                ),
            )
        }),
        (Stage::Committing(response), Reply::Done) => next == Progress::Finished::<
            RevokePasskey,
            RevokePasskeyResponse,
            RevokePasskeyError,
        >(Ok(response)),
        (Stage::RollingBack(code), Reply::Done) => next == record(task, code),
        (Stage::Recording(code), Reply::Affected(changed)) => next == (if changed == 1 {
            refused(code.text())
        } else {
            failed(
                Failure::Plugin(
                    PasskeyPluginError::Invariant("passkey command error was not completable"),
                ),
            )
        }),
        (_, reply) => next == failed(stray(reply)),
    }
}

/// How a run starts: who may not call is told so, then a request that is not well formed, and
/// otherwise the command is reserved under the request's fingerprint.
pub open spec fn starts(
    active: ActiveView,
    context: InvocationContext,
    request: RevokePasskeyRequest,
    request_json: Seq<u8>,
    now: Timestamp,
    next: Next,
) -> bool {
    match active.manager(context, REVOKE_PASSKEY_OPERATION@, request.subject@, now) {
        None => next == finished(RevokePasskeyError::Forbidden),
        Some(caller) => match revoke_revision(request) {
            None => next == finished(RevokePasskeyError::InvalidRequest),
            Some(revision) => {
                &&& next matches Progress::Act(run, action)
                &&& run.stage == Stage::Reserving
                &&& run.task.key.caller@ == caller
                &&& run.task.key.operation == REVOKE_PASSKEY_OPERATION
                &&& run.task.key.idempotency_key == request.idempotency_key
                &&& run.task.request == request
                &&& run.task.expected_revision == revision
                &&& run.task.intent@ == sha256(request_json)
                &&& action == (Action::ReserveCommand {
                    key: run.task.key,
                    intent: run.task.intent,
                })
            },
        },
    }
}

/// Starts a run; `request_json` is the request's JSON form.
pub fn start(
    active: &ActivePasskey,
    context: &InvocationContext,
    request: RevokePasskeyRequest,
    request_json: &[u8],
    now: Timestamp,
) -> (next: Next)
    requires
        now.reaches(0),
    ensures
        starts(active@, *context, request, request_json@, now, next),
{
    let caller = match active.management_caller(
        context,
        REVOKE_PASSKEY_OPERATION,
        request.subject.as_str(),
        now,
    ) {
        Some(caller) => caller,
        None => return Progress::Finished(Err(RevokePasskeyError::Forbidden)),
    };
    let expected_revision = match valid_revoke(&request) {
        Some(expected_revision) => expected_revision,
        None => return Progress::Finished(Err(RevokePasskeyError::InvalidRequest)),
    };
    let key = CommandKey {
        caller,
        operation: REVOKE_PASSKEY_OPERATION,
        idempotency_key: request.idempotency_key.clone(),
    };
    let intent = intent_hash(request_json);
    let action = Action::ReserveCommand { key: key.copy(), intent };
    let task = Task { key, request, expected_revision, intent };
    go(task, Stage::Reserving, action)
}

fn refuse(code: &str) -> (next: Next)
    ensures
        next == refused(code@),
{
    match revoke_error(code) {
        Ok(error) => Progress::Finished(Err(error)),
        Err(error) => Progress::Failed(Failure::Plugin(error)),
    }
}

fn go(task: Task, stage: Stage, action: Action) -> (next: Next)
    ensures
        next == act(task, stage, action),
{
    Progress::Act(RevokePasskey { task, stage }, action)
}

fn record_error(task: Task, code: ReceiptCode) -> (next: Next)
    ensures
        next == record(task, code),
{
    let action = Action::CompleteError { key: task.key.copy(), code };
    go(task, Stage::Recording(code), action)
}

fn ask_directory(task: Task) -> (next: Next)
    ensures
        next == proceed(task),
{
    let action = Action::ReadDirectory { subject: task.request.subject.clone() };
    go(task, Stage::ReadingDirectory, action)
}

fn settle(
    active: &ActivePasskey,
    task: Task,
    claim: Result<CommandClaim, PasskeyPluginError>,
) -> (next: Next)
    ensures
        claimed(active@, task, claim, next),
{
    match claim {
        Err(error) => Progress::Failed(Failure::Plugin(error)),
        Ok(CommandClaim::Claimed) => ask_directory(task),
        Ok(CommandClaim::CompletedSuccess { nonce, ciphertext }) => match open_receipt(
            active.receipt_cipher(),
            &task.key,
            nonce.as_slice(),
            ciphertext.as_slice(),
        ) {
            Ok(bytes) => Progress::Replay(bytes),
            Err(error) => Progress::Failed(Failure::Plugin(error)),
        },
        Ok(CommandClaim::CompletedError(code)) => refuse(code.as_str()),
        Ok(CommandClaim::Conflict) => Progress::Finished(
            Err(RevokePasskeyError::IdempotencyConflict),
        ),
        Ok(CommandClaim::InProgress) => Progress::Finished(
            Err(RevokePasskeyError::OperationInProgress),
        ),
    }
}

fn answer(task: Task, revoked: bool, revision: i64, passkey_revision: i64) -> (next: Next)
    ensures
        answered(task, revoked, revision, passkey_revision, next),
{
    let response = RevokePasskeyResponse {
        passkey_id: task.request.passkey_id.clone(),
        revoked,
        revision: signed_text(revision),
        passkey_revision: signed_text(passkey_revision),
    };
    let copy = response.copy();
    Progress::Encode(RevokePasskey { task, stage: Stage::Encoding(copy) }, response)
}

/// Goes on with the sealed response, or with why it could not be sealed.
pub fn take_receipt(
    task: Task,
    response: RevokePasskeyResponse,
    receipt: Result<([u8; 12], Vec<u8>), PasskeyPluginError>,
) -> (next: Next)
    ensures
        next == with_receipt(task, response, receipt),
{
    match receipt {
        Ok((nonce, ciphertext)) => {
            let action = Action::CompleteSuccess { key: task.key.copy(), nonce, ciphertext };
            go(task, Stage::Completing(response), action)
        },
        Err(error) => Progress::Failed(Failure::Plugin(error)),
    }
}

fn seal(
    active: &ActivePasskey,
    task: Task,
    response: RevokePasskeyResponse,
    bytes: &[u8],
) -> (next: Next)
    ensures
        sealed(active@, task, response, bytes@, next),
{
    let aad = task.key.aad();
    let receipt = active.receipt_cipher().encrypt(bytes, aad.as_slice());
    take_receipt(task, response, receipt)
}

impl RevokePasskey {
    /// Goes on from the reply to the action that the run last asked for.
    pub fn resume(self, active: &ActivePasskey, reply: Reply) -> (next: Next)
        ensures
            advances(active@, self, reply, next),
    {
        let RevokePasskey { task, stage } = self;
        match (stage, reply) {
            (Stage::Reserving, Reply::Affected(inserted)) => match claim_reserved(inserted) {
                Some(_) => ask_directory(task),
                None => {
                    let action = Action::LoadCommand { key: task.key.copy() };
                    go(task, Stage::Loading, action)
                },
            },
            (Stage::Loading, Reply::Command(row)) => {
                let claim = claim_stored(row, task.intent.as_slice());
                settle(active, task, claim)
            },
            (Stage::ReadingDirectory, Reply::Directory(answer)) => {
                match directory_status(answer, task.request.subject.as_str()) {
                    Err(failure) => Progress::Failed(failure),
                    Ok(DirectoryStatus::Active) => go(
                        task,
                        Stage::Beginning,
                        Action::Begin { label: "begin passkey revocation transaction" },
                    ),
                    Ok(_) => record_error(task, ReceiptCode::Disabled),
                }
            },
            (Stage::Beginning, Reply::Done) => {
                let action = Action::LockSubjectOptional { subject: task.request.subject.clone() };
                go(task, Stage::LockingSubject, action)
            },
            (Stage::LockingSubject, Reply::MaybeSubject(subject)) => match subject {
                None => go(
                    task,
                    Stage::RollingBack(ReceiptCode::PasskeyNotFound),
                    Action::Rollback { label: "rollback missing revocation subject" },
                ),
                Some(subject) => {
                    if subject.revision != task.expected_revision {
                        go(
                            task,
                            Stage::RollingBack(ReceiptCode::RevisionConflict),
                            Action::Rollback { label: "rollback revocation revision conflict" },
                        )
                    } else {
                        let action = Action::LockPasskey {
                            passkey_id: task.request.passkey_id.clone(),
                            subject: task.request.subject.clone(),
                        };
                        go(task, Stage::LockingPasskey(subject), action)
                    }
                },
            },
            (Stage::LockingPasskey(subject), Reply::Revocable(row)) => match row {
                None => go(
                    task,
                    Stage::RollingBack(ReceiptCode::PasskeyNotFound),
                    Action::Rollback { label: "rollback missing passkey revocation" },
                ),
                Some(row) => {
                    if row.revoked_at.is_none() {
                        let action = Action::RevokePasskey {
                            passkey_id: task.request.passkey_id.clone(),
                        };
                        go(task, Stage::Revoking, action)
                    } else {
                        answer(task, false, subject.revision, row.revision)
                    }
                },
            },
            (Stage::Revoking, Reply::Revision(passkey_revision)) => {
                let action = Action::AdvanceSubject {
                    subject: task.request.subject.clone(),
                    label: "advance revoked passkey collection revision",
                };
                go(task, Stage::AdvancingSubject { passkey_revision }, action)
            },
            (Stage::AdvancingSubject { passkey_revision }, Reply::Revision(revision)) => answer(
                task,
                true,
                revision,
                passkey_revision,
            ),
            (Stage::Encoding(response), Reply::Encoded(bytes)) => seal(
                active,
                task,
                response,
                bytes.as_slice(),
            ),
            (Stage::Completing(response), Reply::Affected(changed)) => {
                if changed == 1 {
                    go(
                        task,
                        Stage::Committing(response),
                        Action::Commit { label: "commit passkey revocation" },
                    )
                } else {
                    Progress::Failed(
                        Failure::Plugin(
                            PasskeyPluginError::Invariant("passkey command was not completable"),
                        ),
                    )
                }
            },
            (Stage::Committing(response), Reply::Done) => Progress::Finished(Ok(response)),
            (Stage::RollingBack(code), Reply::Done) => record_error(task, code),
            (Stage::Recording(code), Reply::Affected(changed)) => {
                if changed == 1 {
                    refuse(code.as_str())
                } else {
                    Progress::Failed(
                        Failure::Plugin(
                            PasskeyPluginError::Invariant(
                                "passkey command error was not completable",
                            ),
                        ),
                    )
                }
            },
            (_, reply) => Progress::Failed(stray_reply(reply)),
        }
    }
}

} // verus!
