//! Beginning a registration: a challenge is made for the subject and stored with its expiry.

use lenso_kernel::InvocationContext;
use vstd::prelude::*;

use crate::active::{ActivePasskey, ActiveView};
use crate::authority::{directory_status, status_of, DirectoryStatus};
use crate::ceremony::{byte_strings, excluded, registration_may_start, start_registration, Ceremony};
use crate::command::{
    begin_registration_error, begin_registration_refusal, claim_of, claim_reserved, claim_stored,
    open_receipt, opened_receipt, CommandClaim, CommandKey, ReceiptCode,
};
use crate::contract::{
    BeginRegistrationError, BeginRegistrationRequest, BeginRegistrationResponse,
    BEGIN_REGISTRATION_OPERATION,
};
use crate::failure::{Failure, PasskeyPluginError};
use crate::identifier::{is_identifier, is_random_uuid, random_id, random_user_id};
use crate::instant::{format_time, rfc3339, Timestamp};
use crate::passkeys::{credential_ids, decode_passkeys, ids_of, undecodable};
use crate::receipt::{aes256_gcm_sealed, intent_hash, sealable, sha256};
use crate::request::{begin_registration_revision, valid_begin_registration};
use crate::rows::{PasskeyRow, SubjectRow};
use crate::storage::{stray, stray_reply, Action, ChallengeKind, NewChallenge, Progress, Reply};
use crate::text::{integer_text, signed_text};

verus! {

/// What a run works on: the command, the request, the revision it expects, and its fingerprint.
#[derive(Debug)]
pub struct Task {
    pub key: CommandKey,
    pub request: BeginRegistrationRequest,
    pub expected_revision: i64,
    pub intent: [u8; 32],
}

/// How far a run has come.
#[derive(Debug)]
pub enum Stage {
    PruningChallenges,
    PruningCommands,
    Reserving,
    Loading,
    ReadingDirectory,
    Beginning,
    EnsuringSubject,
    LockingSubject,
    LockingPasskeys(SubjectRow),
    Encoding(NewChallenge, BeginRegistrationResponse),
    StoringChallenge(BeginRegistrationResponse, [u8; 12], Vec<u8>),
    Completing(BeginRegistrationResponse),
    Committing(BeginRegistrationResponse),
    RollingBack(ReceiptCode),
    Recording(ReceiptCode),
}

/// A run of begin-registration that waits for a reply.
#[derive(Debug)]
pub struct BeginRegistration {
    pub task: Task,
    pub stage: Stage,
}

pub type Next = Progress<BeginRegistration, BeginRegistrationResponse, BeginRegistrationError>;

/// The run goes on to a stage with an action.
pub open spec fn act(task: Task, stage: Stage, action: Action) -> Next {
    Progress::Act(BeginRegistration { task, stage }, action)
}

/// The run ends with a failure.
pub open spec fn failed(failure: Failure) -> Next {
    Progress::Failed(failure)
}

/// The run ends in a refusal.
pub open spec fn finished(error: BeginRegistrationError) -> Next {
    Progress::Finished(Err(error))
}

/// The run ends in the refusal that a code stands for.
pub open spec fn refused(code: Seq<char>) -> Next {
    match begin_registration_refusal(code) {
        Some(error) => finished(error),
        None => failed(
            Failure::Plugin(
                PasskeyPluginError::Invariant("unknown begin-registration receipt error"),
            ),
        ),
    }
}

/// The command is completed with a refusal.
pub open spec fn record(task: Task, code: ReceiptCode) -> Next {
    act(task, Stage::Recording(code), Action::CompleteError { key: task.key, code })
}

/// The transaction is abandoned, and then the command completed with a refusal.
pub open spec fn roll_back(task: Task, code: ReceiptCode, label: &'static str) -> Next {
    act(task, Stage::RollingBack(code), Action::Rollback { label })
}

/// The command is this run's: the subject's status is asked for.
pub open spec fn proceed(task: Task) -> Next {
    act(task, Stage::ReadingDirectory, Action::ReadDirectory { subject: task.request.subject })
}

/// What a claim on the command leads to.
pub open spec fn claimed(
    active: ActiveView,
    task: Task,
    claim: Result<CommandClaim, PasskeyPluginError>,
    next: Next,
) -> bool {
    match claim {
        Err(error) => next == failed(Failure::Plugin(error)),
        Ok(CommandClaim::Claimed) => next == proceed(task),
        Ok(CommandClaim::CompletedSuccess { nonce, ciphertext }) => match opened_receipt(
            active.receipt_key,
            task.key@,
            nonce@,
            ciphertext@,
        ) {
            Some(bytes) => next matches Progress::Replay(replayed) && replayed@ == bytes,
            None => next == failed(Failure::Plugin(PasskeyPluginError::ReceiptDecryption)),
        },
        Ok(CommandClaim::CompletedError(code)) => next == refused(code@),
        Ok(CommandClaim::Conflict) => next == finished(BeginRegistrationError::IdempotencyConflict),
        Ok(CommandClaim::InProgress) => next == finished(
            BeginRegistrationError::OperationInProgress,
        ),
    }
}

/// The challenge of a started ceremony, and what is answered of it.
pub open spec fn challenge_of(
    task: Task,
    subject: SubjectRow,
    ceremony: Ceremony,
    challenge_id: String,
    expires_at: Timestamp,
    challenge: NewChallenge,
    response: BeginRegistrationResponse,
) -> bool {
    &&& challenge == (NewChallenge {
        challenge_id,
        kind: ChallengeKind::Registration,
        caller: task.key.caller,
        subject: task.request.subject,
        expected_revision: subject.revision,
        state: ceremony.state,
        public_options: ceremony.options,
        expires_at,
    })
    &&& response.challenge_id == challenge_id
    &&& response.public_key_json == ceremony.options
    &&& rfc3339(expires_at.unix_nanos as int) == Ok::<Seq<char>, Seq<char>>(response.expires_at@)
    &&& response.revision@ == integer_text(subject.revision as int)
}

/// A started ceremony becomes a challenge that expires after the configured time, under an
/// identifier; the response is handed out for encoding, if its time can be written.
pub open spec fn challenged(
    active: ActiveView,
    task: Task,
    subject: SubjectRow,
    ceremony: Ceremony,
    challenge_id: String,
    now: Timestamp,
    next: Next,
) -> bool {
    let expires_at = now.later(active.config.challenge_ttl_seconds as int);
    match next {
        Progress::Encode(run, response) => {
            &&& run.task == task
            &&& run.stage matches Stage::Encoding(challenge, kept)
            &&& kept == response
            &&& challenge_of(
                task,
                subject,
                ceremony,
                challenge_id,
                expires_at,
                challenge,
                response,
            )
        },
        Progress::Failed(Failure::Timestamp(error)) => rfc3339(expires_at.unix_nanos as int)
            == Err::<Seq<char>, Seq<char>>(error@),
        _ => false,
    }
}

/// The credentials that a new registration excludes: all that the subject has, if it has any.
pub open spec fn exclusion(rows: Seq<PasskeyRow>) -> Option<Seq<Seq<u8>>> {
    if rows.len() == 0 {
        None
    } else {
        Some(credential_ids(rows))
    }
}

/// What the subject's passkeys lead to: too many are refused, and otherwise a ceremony is
/// started that excludes them.
pub open spec fn after_passkeys(
    active: ActiveView,
    task: Task,
    subject: SubjectRow,
    rows: Seq<PasskeyRow>,
    now: Timestamp,
    next: Next,
) -> bool {
    if rows.len() >= active.config.max_passkeys_per_subject {
        next == roll_back(task, ReceiptCode::TooManyPasskeys, "rollback passkey limit")
    } else {
        match undecodable(rows) {
            Some(error) => next matches Progress::Failed(Failure::Representation(text)) && text@
                == error,
            None => {
                ||| next matches Progress::Failed(Failure::StartRegistration(_)) && (
                task.request.user_name@.len() == 0 || task.request.display_name@.len() == 0)
                ||| next matches Progress::Failed(Failure::Plugin(PasskeyPluginError::Random(_)))
                ||| exists|ceremony: Ceremony, challenge_id: String|
                    {
                        &&& registration_may_start(
                            active.config.relying_party(),
                            subject.user_id,
                            task.request.user_name@,
                            task.request.display_name@,
                            exclusion(rows),
                            ceremony.options@,
                            ceremony.state@,
                        )
                        &&& is_identifier("pkr_"@, challenge_id@)
                        &&& #[trigger] challenged(
                            active,
                            task,
                            subject,
                            ceremony,
                            challenge_id,
                            now,
                            next,
                        )
                    }
            },
        }
    }
}

/// What the sealed response leads to: the challenge is stored.
pub open spec fn with_receipt(
    task: Task,
    challenge: NewChallenge,
    response: BeginRegistrationResponse,
    receipt: Result<([u8; 12], Vec<u8>), PasskeyPluginError>,
) -> Next {
    match receipt {
        Ok((nonce, ciphertext)) => act(
            task,
            Stage::StoringChallenge(response, nonce, ciphertext),
            Action::InsertChallenge(challenge),
        ),
        Err(error) => failed(Failure::Plugin(error)),
    }
}

/// The challenge is stored, and the response sealed to the command.
pub open spec fn sealed(
    active: ActiveView,
    task: Task,
    challenge: NewChallenge,
    response: BeginRegistrationResponse,
    bytes: Seq<u8>,
    next: Next,
) -> bool {
    match next {
        Progress::Act(run, action) => {
            &&& run.task == task
            &&& action == Action::InsertChallenge(challenge)
            &&& run.stage matches Stage::StoringChallenge(kept, nonce, ciphertext)
            &&& kept == response
            &&& ciphertext@ == aes256_gcm_sealed(
                active.receipt_key,
                nonce@,
                task.key@.aad(),
                bytes,
            )
            &&& opened_receipt(active.receipt_key, task.key@, nonce@, ciphertext@) == Some(bytes)
        },
        Progress::Failed(Failure::Plugin(PasskeyPluginError::ReceiptEncryption)) => !sealable(
            task.key@.aad(),
            bytes,
        ),
        Progress::Failed(Failure::Plugin(error)) => error is Random,
        _ => false,
    }
}

/// How a run goes on from a reply.
pub open spec fn advances(
    active: ActiveView,
    run: BeginRegistration,
    reply: Reply,
    now: Timestamp,
    next: Next,
) -> bool {
    let task = run.task;
    match (run.stage, reply) {
        (Stage::PruningChallenges, Reply::Done) => next == act(
            task,
            Stage::PruningCommands,
            Action::PruneCommands { receipt_ttl_seconds: active.config.receipt_ttl_seconds },
        ),
        (Stage::PruningCommands, Reply::Done) => next == act(
            task,
            Stage::Reserving,
            Action::ReserveCommand { key: task.key, intent: task.intent },
        ),
        (Stage::Reserving, Reply::Affected(inserted)) => next == (if inserted == 1 {
            proceed(task)
        } else {
            act(task, Stage::Loading, Action::LoadCommand { key: task.key })
        }),
        (Stage::Loading, Reply::Command(row)) => claimed(
            active,
            task,
            claim_of(row, task.intent@),
            next,
        ),
        (Stage::ReadingDirectory, Reply::Directory(answer)) => next == (match status_of(
            answer,
            task.request.subject@,
        ) {
            Err(failure) => failed(failure),
            Ok(DirectoryStatus::Active) => act(
                task,
                Stage::Beginning,
                Action::Begin { label: "begin registration challenge transaction" },
            ),
            Ok(_) => record(task, ReceiptCode::Disabled),
        }),
        (Stage::Beginning, Reply::Done) => {
            &&& next matches Progress::Act(run, Action::EnsureSubject { subject, user_id })
            &&& run == (BeginRegistration { task, stage: Stage::EnsuringSubject })
            &&& subject == task.request.subject
            &&& is_random_uuid(user_id)
        },
        (Stage::EnsuringSubject, Reply::Done) => next == act(
            task,
            Stage::LockingSubject,
            Action::LockSubject { subject: task.request.subject },
        ),
        (Stage::LockingSubject, Reply::Subject(subject)) => next == (if subject.revision
            != task.expected_revision {
            roll_back(
                task,
                ReceiptCode::RevisionConflict,
                "rollback registration revision conflict",
            )
        } else {
            act(
                task,
                Stage::LockingPasskeys(subject),
                Action::LockPasskeys { subject: task.request.subject },
            )
        }),
        (Stage::LockingPasskeys(subject), Reply::Passkeys(rows)) => after_passkeys(
            active,
            task,
            subject,
            rows@,
            now,
            next,
        ),
        (Stage::Encoding(challenge, response), Reply::Encoded(bytes)) => sealed(
            active,
            task,
            challenge,
            response,
            bytes@,
            next,
        ),
        (Stage::StoringChallenge(response, nonce, ciphertext), Reply::Done) => next == act(
            task,
            Stage::Completing(response),
            Action::CompleteSuccess { key: task.key, nonce, ciphertext },
        ),
        (Stage::Completing(response), Reply::Affected(changed)) => next == (if changed == 1 {
            act(
                task,
                Stage::Committing(response),
                Action::Commit { label: "commit registration challenge" },
            )
        } else {
            failed(
                Failure::Plugin(
                    PasskeyPluginError::Invariant("passkey command was not completable"),
                ),
            )
        }),
        (Stage::Committing(response), Reply::Done) => next == Progress::Finished::<
            BeginRegistration,
            BeginRegistrationResponse,
            BeginRegistrationError,
        >(Ok(response)),
        (Stage::RollingBack(code), Reply::Done) => next == record(task, code),
        (Stage::Recording(code), Reply::Affected(changed)) => next == (if changed == 1 {
            refused(code.text())
        } else {
            failed(
                Failure::Plugin(
                    PasskeyPluginError::Invariant("passkey command error was not completable"),
                ),
            )
        }),
        (_, reply) => next == failed(stray(reply)),
    }
}

/// How a run starts: who may not call is told so, then a request that is not well formed, and
/// otherwise expired challenges and receipts are pruned before the command is reserved.
pub open spec fn starts(
    active: ActiveView,
    context: InvocationContext,
    request: BeginRegistrationRequest,
    request_json: Seq<u8>,
    now: Timestamp,
    next: Next,
) -> bool {
    match active.manager(context, BEGIN_REGISTRATION_OPERATION@, request.subject@, now) {
        None => next == finished(BeginRegistrationError::Forbidden),
        Some(caller) => match begin_registration_revision(request) {
            None => next == finished(BeginRegistrationError::InvalidRequest),
            Some(revision) => {
                &&& next matches Progress::Act(run, action)
                &&& run.stage == Stage::PruningChallenges
                &&& run.task.key.caller@ == caller
                &&& run.task.key.operation == BEGIN_REGISTRATION_OPERATION
                &&& run.task.key.idempotency_key == request.idempotency_key
                &&& run.task.request == request
                &&& run.task.expected_revision == revision
                &&& run.task.intent@ == sha256(request_json)
                &&& action == Action::PruneChallenges
            },
        },
    }
}

/// Starts a run; `request_json` is the request's JSON form.
pub fn start(
    active: &ActivePasskey,
    context: &InvocationContext,
    request: BeginRegistrationRequest,
    request_json: &[u8],
    now: Timestamp,
) -> (next: Next)
    requires
        now.reaches(0),
    ensures
        starts(active@, *context, request, request_json@, now, next),
{
    let caller = match active.management_caller(
        context,
        BEGIN_REGISTRATION_OPERATION,
        request.subject.as_str(),
        now,
    ) {
        Some(caller) => caller,
        None => return Progress::Finished(Err(BeginRegistrationError::Forbidden)),
    };
    let expected_revision = match valid_begin_registration(&request) {
        Some(expected_revision) => expected_revision,
        None => return Progress::Finished(Err(BeginRegistrationError::InvalidRequest)),
    };
    let key = CommandKey {
        caller,
        operation: BEGIN_REGISTRATION_OPERATION,
        idempotency_key: request.idempotency_key.clone(),
    };
    let intent = intent_hash(request_json);
    let task = Task { key, request, expected_revision, intent };
    go(task, Stage::PruningChallenges, Action::PruneChallenges)
}

fn refuse(code: &str) -> (next: Next)
    ensures
        next == refused(code@),
{
    match begin_registration_error(code) {
        Ok(error) => Progress::Finished(Err(error)),
        Err(error) => Progress::Failed(Failure::Plugin(error)),
    }
}

fn go(task: Task, stage: Stage, action: Action) -> (next: Next)
    ensures
        next == act(task, stage, action),
{
    Progress::Act(BeginRegistration { task, stage }, action)
}

fn record_error(task: Task, code: ReceiptCode) -> (next: Next)
    ensures
        next == record(task, code),
{
    let action = Action::CompleteError { key: task.key.copy(), code };
    go(task, Stage::Recording(code), action)
}

fn ask_directory(task: Task) -> (next: Next)
    ensures
        next == proceed(task),
{
    let action = Action::ReadDirectory { subject: task.request.subject.clone() };
    go(task, Stage::ReadingDirectory, action)
}

fn settle(
    active: &ActivePasskey,
    task: Task,
    claim: Result<CommandClaim, PasskeyPluginError>,
) -> (next: Next)
    ensures
        claimed(active@, task, claim, next),
{
    match claim {
        Err(error) => Progress::Failed(Failure::Plugin(error)),
        Ok(CommandClaim::Claimed) => ask_directory(task),
        Ok(CommandClaim::CompletedSuccess { nonce, ciphertext }) => match open_receipt(
            active.receipt_cipher(),
            &task.key,
            nonce.as_slice(),
            ciphertext.as_slice(),
        ) {
            Ok(bytes) => Progress::Replay(bytes),
            Err(error) => Progress::Failed(Failure::Plugin(error)),
        },
        Ok(CommandClaim::CompletedError(code)) => refuse(code.as_str()),
        Ok(CommandClaim::Conflict) => Progress::Finished(
            Err(BeginRegistrationError::IdempotencyConflict),
        ),
        Ok(CommandClaim::InProgress) => Progress::Finished(
            Err(BeginRegistrationError::OperationInProgress),
        ),
    }
}

/// Makes a challenge of a started ceremony, under the identifier `challenge_id`.
pub fn challenge(
    active: &ActivePasskey,
    task: Task,
    subject: SubjectRow,
    ceremony: Ceremony,
    challenge_id: String,
    now: Timestamp,
) -> (next: Next)
    requires
        now.reaches(active@.config.challenge_ttl_seconds as int),
    ensures
        challenged(active@, task, subject, ceremony, challenge_id, now, next),
{
    let expires_at = now.plus_seconds(active.challenge_ttl_seconds());
    let expires_text = match format_time(expires_at) {
        Ok(text) => text,
        Err(failure) => return Progress::Failed(failure),
    };
    let response = BeginRegistrationResponse {
        challenge_id: challenge_id.clone(),
        public_key_json: ceremony.options.clone(),
        expires_at: expires_text,
        revision: signed_text(subject.revision),
    };
    let new = NewChallenge {
        challenge_id,
        kind: ChallengeKind::Registration,
        caller: task.key.caller.clone(),
        subject: task.request.subject.clone(),
        expected_revision: subject.revision,
        state: ceremony.state,
        public_options: ceremony.options,
        expires_at,
    };
    let copy = response.copy();
    Progress::Encode(BeginRegistration { task, stage: Stage::Encoding(new, copy) }, response)
}

fn start_ceremony(
    active: &ActivePasskey,
    task: Task,
    subject: SubjectRow,
    rows: Vec<PasskeyRow>,
    now: Timestamp,
) -> (next: Next)
    requires
        now.reaches(active@.config.challenge_ttl_seconds as int),
    ensures
        after_passkeys(active@, task, subject, rows@, now, next),
{
    if rows.len() >= active.max_passkeys_per_subject() as usize {
        return go(
            task,
            Stage::RollingBack(ReceiptCode::TooManyPasskeys),
            Action::Rollback { label: "rollback passkey limit" },
        );
    }
    let passkeys = match decode_passkeys(&rows) {
        Ok(passkeys) => passkeys,
        Err(failure) => return Progress::Failed(failure),
    };
    let ids = ids_of(&passkeys);
    let exclude = if ids.len() == 0 {
        None
    } else {
        Some(ids)
    };
    proof {
        assert(byte_strings(ids@).len() == ids.len());
        assert(byte_strings(ids@) =~= credential_ids(rows@));
        assert(excluded(exclude) == exclusion(rows@));
    }
    let ceremony = match start_registration(
        active.webauthn(),
        subject.user_id,
        task.request.user_name.as_str(),
        task.request.display_name.as_str(),
        exclude,
    ) {
        Ok(ceremony) => ceremony,
        Err(error) => return Progress::Failed(Failure::StartRegistration(error)),
    };
    let challenge_id = match random_id("pkr_") {
        Ok(challenge_id) => challenge_id,
        Err(error) => return Progress::Failed(Failure::Plugin(error)),
    };
    let next = challenge(active, task, subject, ceremony, challenge_id, now);
    assert(challenged(active@, task, subject, ceremony, challenge_id, now, next));
    next
}

/// Goes on with the sealed response, or with why it could not be sealed.
pub fn take_receipt(
    task: Task,
    challenge: NewChallenge,
    response: BeginRegistrationResponse,
    receipt: Result<([u8; 12], Vec<u8>), PasskeyPluginError>,
) -> (next: Next)
    ensures
        next == with_receipt(task, challenge, response, receipt),
{
    match receipt {
        Ok((nonce, ciphertext)) => go(
            task,
            Stage::StoringChallenge(response, nonce, ciphertext),
            Action::InsertChallenge(challenge),
        ),
        Err(error) => Progress::Failed(Failure::Plugin(error)),
    }
}

fn seal(
    active: &ActivePasskey,
    task: Task,
    challenge: NewChallenge,
    response: BeginRegistrationResponse,
    bytes: &[u8],
) -> (next: Next)
    ensures
        sealed(active@, task, challenge, response, bytes@, next),
{
    let aad = task.key.aad();
    let receipt = active.receipt_cipher().encrypt(bytes, aad.as_slice());
    take_receipt(task, challenge, response, receipt)
}

impl BeginRegistration {
    /// Goes on from the reply to the action that the run last asked for.
    pub fn resume(self, active: &ActivePasskey, reply: Reply, now: Timestamp) -> (next: Next)
        requires
            now.reaches(active@.config.challenge_ttl_seconds as int),
        ensures
            advances(active@, self, reply, now, next),
    {
        let BeginRegistration { task, stage } = self;
        match (stage, reply) {
            (Stage::PruningChallenges, Reply::Done) => go(
                task,
                Stage::PruningCommands,
                Action::PruneCommands { receipt_ttl_seconds: active.receipt_ttl_seconds() },
            ),
            (Stage::PruningCommands, Reply::Done) => {
                let action = Action::ReserveCommand { key: task.key.copy(), intent: task.intent };
                go(task, Stage::Reserving, action)
            },
            (Stage::Reserving, Reply::Affected(inserted)) => match claim_reserved(inserted) {
                Some(_) => ask_directory(task),
                None => {
                    let action = Action::LoadCommand { key: task.key.copy() };
                    go(task, Stage::Loading, action)
                },
            },
            (Stage::Loading, Reply::Command(row)) => {
                let claim = claim_stored(row, task.intent.as_slice());
                settle(active, task, claim)
            },
            (Stage::ReadingDirectory, Reply::Directory(answer)) => {
                match directory_status(answer, task.request.subject.as_str()) {
                    Err(failure) => Progress::Failed(failure),
                    Ok(DirectoryStatus::Active) => go(
                        task,
                        Stage::Beginning,
                        Action::Begin { label: "begin registration challenge transaction" },
                    ),
                    Ok(_) => record_error(task, ReceiptCode::Disabled),
                }
            },
            (Stage::Beginning, Reply::Done) => {
                let action = Action::EnsureSubject {
                    subject: task.request.subject.clone(),
                    user_id: random_user_id(),
                };
                go(task, Stage::EnsuringSubject, action)
            },
            (Stage::EnsuringSubject, Reply::Done) => {
                let action = Action::LockSubject { subject: task.request.subject.clone() };
                go(task, Stage::LockingSubject, action)
            },
            (Stage::LockingSubject, Reply::Subject(subject)) => {
                if subject.revision != task.expected_revision {
                    go(
                        task,
                        Stage::RollingBack(ReceiptCode::RevisionConflict),
                        Action::Rollback { label: "rollback registration revision conflict" },
                    )
                } else {
                    let action = Action::LockPasskeys { subject: task.request.subject.clone() };
                    go(task, Stage::LockingPasskeys(subject), action)
                }
            },
            (Stage::LockingPasskeys(subject), Reply::Passkeys(rows)) => start_ceremony(
                active,
                task,
                subject,
                rows,
                now,
            ),
            (Stage::Encoding(challenge, response), Reply::Encoded(bytes)) => seal(
                active,
                task,
                challenge,
                response,
                bytes.as_slice(),
            ),
            (Stage::StoringChallenge(response, nonce, ciphertext), Reply::Done) => {
                let action = Action::CompleteSuccess { key: task.key.copy(), nonce, ciphertext };
                go(task, Stage::Completing(response), action)
            },
            (Stage::Completing(response), Reply::Affected(changed)) => {
                if changed == 1 {
                    go(
                        task,
                        Stage::Committing(response),
                        Action::Commit { label: "commit registration challenge" },
                    )
                } else {
                    Progress::Failed(
                        Failure::Plugin(
                            PasskeyPluginError::Invariant("passkey command was not completable"),
                        ),
                    )
                }
            },
            (Stage::Committing(response), Reply::Done) => Progress::Finished(Ok(response)),
            (Stage::RollingBack(code), Reply::Done) => record_error(task, code),
            (Stage::Recording(code), Reply::Affected(changed)) => {
                if changed == 1 {
                    refuse(code.as_str())
                } else {
                    Progress::Failed(
                        Failure::Plugin(
                            PasskeyPluginError::Invariant(
                                "passkey command error was not completable",
                            ),
                        ),
                    )
                }
            },
            (_, reply) => Progress::Failed(stray_reply(reply)),
        }
    }
}

} // verus!
