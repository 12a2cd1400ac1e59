//! Finishing a registration: a challenge is consumed, the authenticator's response is verified,
//! and the passkey joins the subject's credential set.

use lenso_kernel::InvocationContext;
use vstd::prelude::*;
use vstd::string::*;

use crate::active::{ActivePasskey, ActiveView};
use crate::authority::{directory_status, status_of, DirectoryStatus};
use crate::ceremony::{
    verified, verified_registration, verify_registration, VerifiedPasskey, VerifiedPasskeyView,
};
use crate::challenge::{
    begin_consumption, check_registration_challenge, consume_challenge, consumption,
    consumption_start, registration_challenge_fault, ConsumeStage, Consumption,
};
use crate::command::{
    claim_of, claim_reserved, claim_stored, finish_registration_error,
    finish_registration_refusal, open_receipt, opened_receipt, CommandClaim, CommandKey,
    CommandStatus, ReceiptCode,
};
use crate::contract::{
    FinishRegistrationError, FinishRegistrationRequest, FinishRegistrationResponse, Nullable,
    PasskeySummary, FINISH_REGISTRATION_OPERATION,
};
use crate::failure::{Failure, PasskeyPluginError};
use crate::identifier::{encode_url_safe, is_identifier, random_id, url_safe_base64};
use crate::instant::{format_time, rfc3339, Timestamp};
use crate::receipt::{aes256_gcm_sealed, intent_hash, sealable, sha256};
use crate::request::{finish_registration_revision, valid_finish_registration};
use crate::rows::{ChallengeRow, InsertedPasskey};
use crate::storage::{stray, stray_reply, Action, ChallengeKind, NewPasskey, Progress, Reply};
use crate::text::{decimal, integer_text, signed_text, trim, trimmed, unsigned_text};

verus! {

/// What a run works on: the command, the request, the revision it expects, and its fingerprint.
#[derive(Debug)]
pub struct Task {
    pub key: CommandKey,
    pub request: FinishRegistrationRequest,
    pub expected_revision: i64,
    pub intent: [u8; 32],
}

/// What will be answered of the new passkey.
#[derive(Debug)]
pub struct Draft {
    pub passkey_id: String,
    pub label: String,
    pub credential_id: String,
    pub counter: u32,
}

/// How far a run has come.
#[derive(Debug)]
pub enum Stage {
    Reserving,
    Loading,
    Verifying,
    Consuming(ConsumeStage),
    ReadingDirectory(ChallengeRow),
    Beginning(NewPasskey, Draft),
    LockingSubject(NewPasskey, Draft),
    Inserting(Draft),
    AdvancingSubject(Draft, InsertedPasskey),
    Encoding(FinishRegistrationResponse),
    Completing(FinishRegistrationResponse),
    Committing(FinishRegistrationResponse),
    RollingBack(ReceiptCode),
    Recording(ReceiptCode),
}

/// A run of finish-registration that waits for a reply.
#[derive(Debug)]
pub struct FinishRegistration {
    pub task: Task,
    pub stage: Stage,
}

pub type Next = Progress<
    FinishRegistration,
    FinishRegistrationResponse,
    FinishRegistrationError,
>;

/// The run goes on to a stage with an action.
pub open spec fn act(task: Task, stage: Stage, action: Action) -> Next {
    Progress::Act(FinishRegistration { task, stage }, action)
}

/// The run ends with a failure.
pub open spec fn failed(failure: Failure) -> Next {
    Progress::Failed(failure)
}

/// The run ends in a refusal.
pub open spec fn finished(error: FinishRegistrationError) -> Next {
    Progress::Finished(Err(error))
}

/// The run ends in the refusal that a code stands for.
pub open spec fn refused(code: Seq<char>) -> Next {
    match finish_registration_refusal(code) {
        Some(error) => finished(error),
        None => failed(
            Failure::Plugin(
                PasskeyPluginError::Invariant("unknown finish-registration receipt error"),
            ),
        ),
    }
}

/// The command is completed with a refusal.
pub open spec fn record(task: Task, code: ReceiptCode) -> Next {
    act(task, Stage::Recording(code), Action::CompleteError { key: task.key, code })
}

/// The transaction is abandoned, and then the command completed with a refusal.
pub open spec fn roll_back(task: Task, code: ReceiptCode, label: &'static str) -> Next {
    act(task, Stage::RollingBack(code), Action::Rollback { label })
}

/// The command is this run's: it moves to verification.
pub open spec fn proceed(task: Task) -> Next {
    act(
        task,
        Stage::Verifying,
        Action::SetCommandStatus {
            key: task.key,
            from: CommandStatus::Reserved,
            to: CommandStatus::Verifying,
        },
    )
}

/// What a claim on the command leads to.
pub open spec fn claimed(
    active: ActiveView,
    task: Task,
    claim: Result<CommandClaim, PasskeyPluginError>,
    next: Next,
) -> bool {
    match claim {
        Err(error) => next == failed(Failure::Plugin(error)),
        Ok(CommandClaim::Claimed) => next == proceed(task),
        Ok(CommandClaim::CompletedSuccess { nonce, ciphertext }) => match opened_receipt(
            active.receipt_key,
            task.key@,
            nonce@,
            ciphertext@,
        ) {
            Some(bytes) => next matches Progress::Replay(replayed) && replayed@ == bytes,
            None => next == failed(Failure::Plugin(PasskeyPluginError::ReceiptDecryption)),
        },
        Ok(CommandClaim::CompletedError(code)) => next == refused(code@),
        Ok(CommandClaim::Conflict) => next == finished(FinishRegistrationError::IdempotencyConflict),
        Ok(CommandClaim::InProgress) => next == finished(FinishRegistrationError::OperationInProgress),
    }
}

/// What the consumption of the challenge leads to.
pub open spec fn after_consumption(task: Task, step: Consumption, now: Timestamp) -> Next {
    match step {
        Consumption::Act(stage, action) => act(task, Stage::Consuming(stage), action),
        Consumption::Failed(failure) => failed(failure),
        Consumption::Over(None) => record(task, ReceiptCode::InvalidRequest),
        Consumption::Over(Some(challenge)) => match registration_challenge_fault(
            challenge,
            task.key.caller@,
            task.request.subject@,
            task.expected_revision,
            now,
        ) {
            Some(code) => record(task, code),
            None => act(
                task,
                Stage::ReadingDirectory(challenge),
                Action::ReadDirectory { subject: task.request.subject },
            ),
        },
    }
}

/// The passkey to store, and what will be answered of it, are made of the verified credential.
pub open spec fn made_of(
    task: Task,
    verified: VerifiedPasskeyView,
    new: NewPasskey,
    draft: Draft,
) -> bool {
    &&& new.passkey_id == draft.passkey_id
    &&& new.subject == task.request.subject
    &&& new.credential_id@ == verified.credential_id
    &&& new.public_key@ == verified.public_key
    &&& new.passkey@ == verified.passkey
    &&& new.label@ == trimmed(task.request.label@)
    &&& new.label == draft.label
    &&& new.sign_count == verified.counter
    &&& draft.credential_id@ == url_safe_base64(verified.credential_id)
    &&& draft.counter == verified.counter
}

/// The verified credential is taken into a transaction, under an identifier.
pub open spec fn taken_in(
    task: Task,
    verified: VerifiedPasskeyView,
    passkey_id: Seq<char>,
    next: Next,
) -> bool {
    &&& next matches Progress::Act(run, action)
    &&& run.task == task
    &&& action == (Action::Begin { label: "begin passkey registration transaction" })
    &&& run.stage matches Stage::Beginning(new, draft)
    &&& new.passkey_id@ == passkey_id
    &&& made_of(task, verified, new, draft)
}

/// What verifying the response against the consumed challenge leads to.
pub open spec fn after_verification(
    task: Task,
    outcome: Result<Option<VerifiedPasskeyView>, Seq<char>>,
    next: Next,
) -> bool {
    match outcome {
        Err(error) => next matches Progress::Failed(Failure::Representation(text)) && text@
            == error,
        Ok(None) => next == record(task, ReceiptCode::InvalidCredential),
        Ok(Some(verified)) => {
            ||| next matches Progress::Failed(Failure::Plugin(PasskeyPluginError::Random(_)))
            ||| exists|id: Seq<char>|
                is_identifier("pk_"@, id) && #[trigger] taken_in(task, verified, id, next)
        },
    }
}

/// What is answered of the new passkey.
pub open spec fn answers(
    draft: Draft,
    inserted: InsertedPasskey,
    revision: i64,
    response: FinishRegistrationResponse,
) -> bool {
    &&& response.passkey.passkey_id == draft.passkey_id
    &&& response.passkey.label == draft.label
    &&& response.passkey.credential_id == draft.credential_id
    &&& response.passkey.sign_count@ == decimal(draft.counter as nat)
    &&& response.passkey.revision@ == integer_text(inserted.revision as int)
    &&& rfc3339(inserted.created_at.unix_nanos as int) == Ok::<Seq<char>, Seq<char>>(
        response.passkey.created_at@,
    )
    &&& response.passkey.last_used_at == Nullable::<String>(None)
    &&& response.passkey.revoked_at == Nullable::<String>(None)
    &&& response.revision@ == integer_text(revision as int)
}

/// The response of the new passkey is handed out for encoding, if its time can be written.
pub open spec fn answered(
    task: Task,
    draft: Draft,
    inserted: InsertedPasskey,
    revision: i64,
    next: Next,
) -> bool {
    match next {
        Progress::Encode(run, response) => {
            &&& answers(draft, inserted, revision, response)
            &&& run == (FinishRegistration { task, stage: Stage::Encoding(response) })
        },
        Progress::Failed(Failure::Timestamp(error)) => rfc3339(inserted.created_at.unix_nanos as int)
            == Err::<Seq<char>, Seq<char>>(error@),
        _ => false,
    }
}

/// What the sealed response leads to: the command is completed with it.
pub open spec fn with_receipt(
    task: Task,
    response: FinishRegistrationResponse,
    receipt: Result<([u8; 12], Vec<u8>), PasskeyPluginError>,
) -> Next {
    match receipt {
        Ok((nonce, ciphertext)) => act(
            task,
            Stage::Completing(response),
            Action::CompleteSuccess { key: task.key, nonce, ciphertext },
        ),
        Err(error) => failed(Failure::Plugin(error)),
    }
}

/// The command is completed with the response, sealed to the command.
pub open spec fn sealed(
    active: ActiveView,
    task: Task,
    response: FinishRegistrationResponse,
    bytes: Seq<u8>,
    next: Next,
) -> bool {
    match next {
        Progress::Act(run, Action::CompleteSuccess { key, nonce, ciphertext }) => {
            &&& run == (FinishRegistration { task, stage: Stage::Completing(response) })
            &&& key == task.key
            &&& ciphertext@ == aes256_gcm_sealed(
                active.receipt_key,
                nonce@,
                task.key@.aad(),
                bytes,
            )
            &&& opened_receipt(active.receipt_key, task.key@, nonce@, ciphertext@) == Some(bytes)
        },
        Progress::Failed(Failure::Plugin(PasskeyPluginError::ReceiptEncryption)) => !sealable(
            task.key@.aad(),
            bytes,
        ),
        Progress::Failed(Failure::Plugin(error)) => error is Random,
        _ => false,
    }
}

/// How a run goes on from a reply.
pub open spec fn advances(
    active: ActiveView,
    run: FinishRegistration,
    reply: Reply,
    now: Timestamp,
    next: Next,
) -> bool {
    let task = run.task;
    match (run.stage, reply) {
        (Stage::Reserving, Reply::Affected(inserted)) => next == (if inserted == 1 {
            proceed(task)
        } else {
            act(task, Stage::Loading, Action::LoadCommand { key: task.key })
        }),
        (Stage::Loading, Reply::Command(row)) => claimed(
            active,
            task,
            claim_of(row, task.intent@),
            next,
        ),
        (Stage::Verifying, Reply::Affected(changed)) => next == (if changed == 1 {
            after_consumption(task, consumption_start(), now)
        } else {
            finished(FinishRegistrationError::OperationInProgress)
        }),
        (Stage::Consuming(stage), reply) => next == after_consumption(
            task,
            consumption(
                task.request.challenge_id,
                ChallengeKind::Registration,
                task.key,
                stage,
                reply,
            ),
            now,
        ),
        (Stage::ReadingDirectory(challenge), Reply::Directory(answer)) => match status_of(
            answer,
            task.request.subject@,
        ) {
            Err(failure) => next == failed(failure),
            Ok(DirectoryStatus::Active) => after_verification(
                task,
                verified_registration(
                    active.config.relying_party(),
                    challenge.state@,
                    task.request.credential_json@,
                ),
                next,
            ),
            Ok(_) => next == record(task, ReceiptCode::Disabled),
        },
        (Stage::Beginning(new, draft), Reply::Done) => next == act(
            task,
            Stage::LockingSubject(new, draft),
            Action::LockSubject { subject: task.request.subject },
        ),
        (Stage::LockingSubject(new, draft), Reply::Subject(subject)) => next == (
        if subject.revision != task.expected_revision {
            roll_back(
                task,
                ReceiptCode::RevisionConflict,
                "rollback finish registration revision conflict",
            )
        } else {
            act(task, Stage::Inserting(draft), Action::InsertPasskey(new))
        }),
        (Stage::Inserting(draft), Reply::Inserted(inserted)) => next == (match inserted {
            None => roll_back(task, ReceiptCode::CredentialExists, "rollback duplicate passkey"),
            Some(inserted) => act(
                task,
                Stage::AdvancingSubject(draft, inserted),
                Action::AdvanceSubject {
                    subject: task.request.subject,
                    label: "advance passkey collection revision",
                },
            ),
        }),
        (Stage::AdvancingSubject(draft, inserted), Reply::Revision(revision)) => answered(
            task,
            draft,
            inserted,
            revision,
            next,
        ),
        (Stage::Encoding(response), Reply::Encoded(bytes)) => sealed(
            active,
            task,
            response,
            bytes@,
            next,
        ),
        (Stage::Completing(response), Reply::Affected(changed)) => next == (if changed == 1 {
            act(
                task,
                Stage::Committing(response),
                Action::Commit { label: "commit passkey registration" },
            )
        } else {
            failed(
                Failure::Plugin(
                    PasskeyPluginError::Invariant("passkey command was not completable"),
                ),
            )
        }),
        (Stage::Committing(response), Reply::Done) => next == Progress::Finished::<
            FinishRegistration,
            FinishRegistrationResponse,
            FinishRegistrationError,
        >(Ok(response)),
        (Stage::RollingBack(code), Reply::Done) => next == record(task, code),
        (Stage::Recording(code), Reply::Affected(changed)) => next == (if changed == 1 {
            refused(code.text())
        } else {
            failed(
                Failure::Plugin(
                    PasskeyPluginError::Invariant("passkey command error was not completable"),
                ),
            )
        }),
        (_, reply) => next == failed(stray(reply)),
    }
}

/// How a run starts: who may not call is told so, then a request that is not well formed, and
/// otherwise the command is reserved under the request's fingerprint.
pub open spec fn starts(
    active: ActiveView,
    context: InvocationContext,
    request: FinishRegistrationRequest,
    request_json: Seq<u8>,
    now: Timestamp,
    next: Next,
) -> bool {
    match active.manager(context, FINISH_REGISTRATION_OPERATION@, request.subject@, now) {
        None => next == finished(FinishRegistrationError::Forbidden),
        Some(caller) => match finish_registration_revision(request) {
            None => next == finished(FinishRegistrationError::InvalidRequest),
            Some(revision) => {
                &&& next matches Progress::Act(run, action)
                &&& run.stage == Stage::Reserving
                &&& run.task.key.caller@ == caller
                &&& run.task.key.operation == FINISH_REGISTRATION_OPERATION
                &&& run.task.key.idempotency_key == request.idempotency_key
                &&& run.task.request == request
                &&& run.task.expected_revision == revision
                &&& run.task.intent@ == sha256(request_json)
                &&& action == (Action::ReserveCommand {
                    key: run.task.key,
                    intent: run.task.intent,
                })
            },
        },
    }
}

/// Starts a run; `request_json` is the request's JSON form.
pub fn start(
    active: &ActivePasskey,
    context: &InvocationContext,
    request: FinishRegistrationRequest,
    request_json: &[u8],
    now: Timestamp,
) -> (next: Next)
    requires
        now.reaches(0),
    ensures
        starts(active@, *context, request, request_json@, now, next),
{
    let caller = match active.management_caller(
        context,
        FINISH_REGISTRATION_OPERATION,
        request.subject.as_str(),
        now,
    ) {
        Some(caller) => caller,
        None => return Progress::Finished(Err(FinishRegistrationError::Forbidden)),
    };
    let expected_revision = match valid_finish_registration(&request) {
        Some(expected_revision) => expected_revision,
        None => return Progress::Finished(Err(FinishRegistrationError::InvalidRequest)),
    };
    let key = CommandKey {
        caller,
        operation: FINISH_REGISTRATION_OPERATION,
        idempotency_key: request.idempotency_key.clone(),
    };
    let intent = intent_hash(request_json);
    let action = Action::ReserveCommand { key: key.copy(), intent };
    let task = Task { key, request, expected_revision, intent };
    Progress::Act(FinishRegistration { task, stage: Stage::Reserving }, action)
}

fn refuse(code: &str) -> (next: Next)
    ensures
        next == refused(code@),
{
    match finish_registration_error(code) {
        Ok(error) => Progress::Finished(Err(error)),
        Err(error) => Progress::Failed(Failure::Plugin(error)),
    }
}

fn go(task: Task, stage: Stage, action: Action) -> (next: Next)
    ensures
        next == act(task, stage, action),
{
    Progress::Act(FinishRegistration { task, stage }, action)
}

fn record_error(task: Task, code: ReceiptCode) -> (next: Next)
    ensures
        next == record(task, code),
{
    let action = Action::CompleteError { key: task.key.copy(), code };
    go(task, Stage::Recording(code), action)
}

fn settle(
    active: &ActivePasskey,
    task: Task,
    claim: Result<CommandClaim, PasskeyPluginError>,
) -> (next: Next)
    ensures
        claimed(active@, task, claim, next),
{
    match claim {
        Err(error) => Progress::Failed(Failure::Plugin(error)),
        Ok(CommandClaim::Claimed) => move_to_verification(task),
        Ok(CommandClaim::CompletedSuccess { nonce, ciphertext }) => match open_receipt(
            active.receipt_cipher(),
            &task.key,
            nonce.as_slice(),
            ciphertext.as_slice(),
        ) {
            Ok(bytes) => Progress::Replay(bytes),
            Err(error) => Progress::Failed(Failure::Plugin(error)),
        },
        Ok(CommandClaim::CompletedError(code)) => refuse(code.as_str()),
        Ok(CommandClaim::Conflict) => Progress::Finished(
            Err(FinishRegistrationError::IdempotencyConflict),
        ),
        Ok(CommandClaim::InProgress) => Progress::Finished(
            Err(FinishRegistrationError::OperationInProgress),
        ),
    }
}

fn move_to_verification(task: Task) -> (next: Next)
    ensures
        next == proceed(task),
{
    let action = Action::SetCommandStatus {
        key: task.key.copy(),
        from: CommandStatus::Reserved,
        to: CommandStatus::Verifying,
    };
    go(task, Stage::Verifying, action)
}

fn consume(task: Task, step: Consumption, now: Timestamp) -> (next: Next)
    ensures
        next == after_consumption(task, step, now),
{
    match step {
        Consumption::Act(stage, action) => go(task, Stage::Consuming(stage), action),
        Consumption::Failed(failure) => Progress::Failed(failure),
        Consumption::Over(None) => record_error(task, ReceiptCode::InvalidRequest),
        Consumption::Over(Some(challenge)) => match check_registration_challenge(
            &challenge,
            task.key.caller.as_str(),
            task.request.subject.as_str(),
            task.expected_revision,
            now,
        ) {
            Some(code) => record_error(task, code),
            None => {
                let action = Action::ReadDirectory { subject: task.request.subject.clone() };
                go(task, Stage::ReadingDirectory(challenge), action)
            },
        },
    }
}

/// Takes a verified credential into a transaction, under the identifier `passkey_id`.
pub fn take_in(task: Task, verified: VerifiedPasskey, passkey_id: String) -> (next: Next)
    ensures
        taken_in(task, verified@, passkey_id@, next),
{
    let credential_id = encode_url_safe(verified.credential_id.as_slice());
    let label = trim(task.request.label.as_str()).to_owned();
    let draft = Draft {
        passkey_id: passkey_id.clone(),
        label: label.clone(),
        credential_id,
        counter: verified.counter,
    };
    let new = NewPasskey {
        passkey_id,
        subject: task.request.subject.clone(),
        credential_id: verified.credential_id,
        public_key: verified.public_key,
        passkey: verified.passkey,
        label,
        sign_count: verified.counter as i64,
    };
    let action = Action::Begin { label: "begin passkey registration transaction" };
    go(task, Stage::Beginning(new, draft), action)
}

/// Goes on with the outcome of verifying the response against the consumed challenge.
pub fn take_outcome(task: Task, outcome: Result<Option<VerifiedPasskey>, String>) -> (next: Next)
    ensures
        after_verification(task, verified(outcome), next),
{
    let ghost viewed = verified(outcome);
    match outcome {
        Err(error) => Progress::Failed(Failure::Representation(error)),
        Ok(None) => record_error(task, ReceiptCode::InvalidCredential),
        Ok(Some(verified)) => match random_id("pk_") {
            Err(error) => {
                let next = Progress::Failed(Failure::Plugin(error));
                assert(after_verification(task, viewed, next));
                next
            },
            Ok(passkey_id) => {
                let ghost id = passkey_id@;
                let next = take_in(task, verified, passkey_id);
                assert(taken_in(task, viewed->Ok_0->0, id, next));
                assert(after_verification(task, viewed, next));
                next
            },
        },
    }
}

fn verify(active: &ActivePasskey, task: Task, challenge: &ChallengeRow) -> (next: Next)
    ensures
        after_verification(
            task,
            verified_registration(
                active@.config.relying_party(),
                challenge.state@,
                task.request.credential_json@,
            ),
            next,
        ),
{
    let outcome = verify_registration(
        active.webauthn(),
        challenge.state.as_str(),
        task.request.credential_json.as_str(),
    );
    take_outcome(task, outcome)
}

fn answer(task: Task, draft: Draft, inserted: InsertedPasskey, revision: i64) -> (next: Next)
    ensures
        answered(task, draft, inserted, revision, next),
{
    let created_at = match format_time(inserted.created_at) {
        Ok(created_at) => created_at,
        Err(failure) => return Progress::Failed(failure),
    };
    let response = FinishRegistrationResponse {
        passkey: PasskeySummary {
            passkey_id: draft.passkey_id,
            label: draft.label,
            credential_id: draft.credential_id,
            sign_count: unsigned_text(draft.counter as u64),
            revision: signed_text(inserted.revision),
            created_at,
            last_used_at: Nullable(None),
            revoked_at: Nullable(None),
        },
        revision: signed_text(revision),
    };
    let copy = response.copy();
    Progress::Encode(FinishRegistration { task, stage: Stage::Encoding(copy) }, response)
}

/// Goes on with the sealed response, or with why it could not be sealed.
pub fn take_receipt(
    task: Task,
    response: FinishRegistrationResponse,
    receipt: Result<([u8; 12], Vec<u8>), PasskeyPluginError>,
) -> (next: Next)
    ensures
        next == with_receipt(task, response, receipt),
{
    match receipt {
        Ok((nonce, ciphertext)) => {
            let action = Action::CompleteSuccess { key: task.key.copy(), nonce, ciphertext };
            go(task, Stage::Completing(response), action)
        },
        Err(error) => Progress::Failed(Failure::Plugin(error)),
    }
}

fn seal(
    active: &ActivePasskey,
    task: Task,
    response: FinishRegistrationResponse,
    bytes: &[u8],
) -> (next: Next)
    ensures
        sealed(active@, task, response, bytes@, next),
{
    let aad = task.key.aad();
    let receipt = active.receipt_cipher().encrypt(bytes, aad.as_slice());
    take_receipt(task, response, receipt)
}

impl FinishRegistration {
    /// Goes on from the reply to the action that the run last asked for.
    pub fn resume(self, active: &ActivePasskey, reply: Reply, now: Timestamp) -> (next: Next)
        ensures
            advances(active@, self, reply, now, next),
    {
        let FinishRegistration { task, stage } = self;
        match (stage, reply) {
            (Stage::Reserving, Reply::Affected(inserted)) => match claim_reserved(inserted) {
                Some(_) => move_to_verification(task),
                None => {
                    let action = Action::LoadCommand { key: task.key.copy() };
                    go(task, Stage::Loading, action)
                },
            },
            (Stage::Loading, Reply::Command(row)) => {
                let claim = claim_stored(row, task.intent.as_slice());
                settle(active, task, claim)
            },
            (Stage::Verifying, Reply::Affected(changed)) => {
                if changed == 1 {
                    consume(task, begin_consumption(), now)
                } else {
                    Progress::Finished(Err(FinishRegistrationError::OperationInProgress))
                }
            },
            (Stage::Consuming(stage), reply) => {
                let step = consume_challenge(
                    &task.request.challenge_id,
                    ChallengeKind::Registration,
                    &task.key,
                    stage,
                    reply,
                );
                consume(task, step, now)
            },
            (Stage::ReadingDirectory(challenge), Reply::Directory(answer)) => {
                match directory_status(answer, task.request.subject.as_str()) {
                    Err(failure) => Progress::Failed(failure),
                    Ok(DirectoryStatus::Active) => verify(active, task, &challenge),
                    Ok(_) => record_error(task, ReceiptCode::Disabled),
                }
            },
            (Stage::Beginning(new, draft), Reply::Done) => {
                let action = Action::LockSubject { subject: task.request.subject.clone() };
                go(task, Stage::LockingSubject(new, draft), action)
            },
            (Stage::LockingSubject(new, draft), Reply::Subject(subject)) => {
                if subject.revision != task.expected_revision {
                    go(
                        task,
                        Stage::RollingBack(ReceiptCode::RevisionConflict),
                        Action::Rollback {
                            label: "rollback finish registration revision conflict",
                        },
                    )
                } else {
                    go(task, Stage::Inserting(draft), Action::InsertPasskey(new))
                }
            },
            (Stage::Inserting(draft), Reply::Inserted(inserted)) => match inserted {
                None => go(
                    task,
                    Stage::RollingBack(ReceiptCode::CredentialExists),
                    Action::Rollback { label: "rollback duplicate passkey" },
                ),
                Some(inserted) => {
                    let action = Action::AdvanceSubject {
                        subject: task.request.subject.clone(),
                        label: "advance passkey collection revision",
                    };
                    go(task, Stage::AdvancingSubject(draft, inserted), action)
                },
            },
            (Stage::AdvancingSubject(draft, inserted), Reply::Revision(revision)) => answer(
                task,
                draft,
                inserted,
                revision,
            ),
            (Stage::Encoding(response), Reply::Encoded(bytes)) => seal(
                active,
                task,
                response,
                bytes.as_slice(),
            ),
            (Stage::Completing(response), Reply::Affected(changed)) => {
                if changed == 1 {
                    go(
                        task,
                        Stage::Committing(response),
                        Action::Commit { label: "commit passkey registration" },
                    )
                } else {
                    Progress::Failed(
                        Failure::Plugin(
                            PasskeyPluginError::Invariant("passkey command was not completable"),
                        ),
                    )
                }
            },
            (Stage::Committing(response), Reply::Done) => Progress::Finished(Ok(response)),
            (Stage::RollingBack(code), Reply::Done) => record_error(task, code),
            (Stage::Recording(code), Reply::Affected(changed)) => {
                if changed == 1 {
                    refuse(code.as_str())
                } else {
                    Progress::Failed(
                        Failure::Plugin(
                            PasskeyPluginError::Invariant(
                                "passkey command error was not completable",
                            ),
                        ),
                    )
                }
            },
            (_, reply) => Progress::Failed(stray_reply(reply)),
        }
    }
}

} // verus!
