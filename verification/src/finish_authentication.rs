//! Finishing an authentication: a challenge is consumed, the authenticator's response is
//! verified and recorded, and a session is issued for the subject.

use lenso_kernel::InvocationContext;
use vstd::prelude::*;

use crate::active::{ActivePasskey, ActiveView};
use crate::authenticated::{
    begin_update, update_authenticated_passkey, update_start, updates, Update, UpdateStage,
};
use crate::authority::{directory_status, status_of, DirectoryStatus};
use crate::ceremony::{
    asserted, texts, verified_authentication, verify_authentication, Assertion, AssertionView,
};
use crate::challenge::{
    authentication_challenge_fault, begin_consumption, check_authentication_challenge,
    consume_challenge, consumption, consumption_start, ConsumeStage, Consumption,
};
use crate::command::{
    claim_of, claim_reserved, claim_stored, finish_authentication_error,
    finish_authentication_refusal, open_receipt, opened_receipt, CommandClaim, CommandKey,
    CommandStatus, ReceiptCode,
};
use crate::contract::{
    FinishAuthenticationError, FinishAuthenticationRequest, FinishAuthenticationResponse,
    FINISH_AUTHENTICATION_OPERATION,
};
use crate::failure::{Failure, PasskeyPluginError};
use crate::instant::{format_time, rfc3339, Timestamp};
use crate::receipt::{aes256_gcm_sealed, intent_hash, sealable, sha256};
use crate::request::{is_finish_authentication, valid_finish_authentication};
use crate::storage::{
    stray, stray_reply, Action, ChallengeKind, IssueReply, NewSession, Progress, Reply,
};
use crate::text::{integer_text, signed_text};

verus! {

/// What a run works on: the command, the request, and its fingerprint.
#[derive(Debug)]
pub struct Task {
    pub key: CommandKey,
    pub request: FinishAuthenticationRequest,
    pub intent: [u8; 32],
}

/// How far a run has come.
#[derive(Debug)]
pub enum Stage {
    Reserving,
    Loading,
    Verifying,
    Consuming(ConsumeStage),
    ReadingDirectory { subject: String, assertion: Assertion },
    Updating { subject: String, assertion: Assertion, update: UpdateStage },
    Issuing { subject: String, passkey_id: String, revision: i64 },
    Encoding(FinishAuthenticationResponse),
    Beginning(FinishAuthenticationResponse, [u8; 12], Vec<u8>),
    Completing(FinishAuthenticationResponse),
    Committing(FinishAuthenticationResponse),
    Recording(ReceiptCode),
}

/// A run of finish-authentication that waits for a reply.
#[derive(Debug)]
pub struct FinishAuthentication {
    pub task: Task,
    pub stage: Stage,
}

pub type Next = Progress<
    FinishAuthentication,
    FinishAuthenticationResponse,
    FinishAuthenticationError,
>;

/// The run goes on to a stage with an action.
pub open spec fn act(task: Task, stage: Stage, action: Action) -> Next {
    Progress::Act(FinishAuthentication { task, stage }, action)
}

/// The run ends with a failure.
pub open spec fn failed(failure: Failure) -> Next {
    Progress::Failed(failure)
}

/// The run ends in a refusal.
pub open spec fn finished(error: FinishAuthenticationError) -> Next {
    Progress::Finished(Err(error))
}

/// The run ends in the refusal that a code stands for.
pub open spec fn refused(code: Seq<char>) -> Next {
    match finish_authentication_refusal(code) {
        Some(error) => finished(error),
        None => failed(
            Failure::Plugin(
                PasskeyPluginError::Invariant("unknown finish-authentication receipt error"),
            ),
        ),
    }
}

/// The command is completed with a refusal.
pub open spec fn record(task: Task, code: ReceiptCode) -> Next {
    act(task, Stage::Recording(code), Action::CompleteError { key: task.key, code })
}

/// The command is this run's: it moves to verification.
pub open spec fn proceed(task: Task) -> Next {
    act(
        task,
        Stage::Verifying,
        Action::SetCommandStatus {
            key: task.key,
            from: CommandStatus::Reserved,
            to: CommandStatus::Verifying,
        },
    )
}

/// What a claim on the command leads to.
pub open spec fn claimed(
    active: ActiveView,
    task: Task,
    claim: Result<CommandClaim, PasskeyPluginError>,
    next: Next,
) -> bool {
    match claim {
        Err(error) => next == failed(Failure::Plugin(error)),
        Ok(CommandClaim::Claimed) => next == proceed(task),
        Ok(CommandClaim::CompletedSuccess { nonce, ciphertext }) => match opened_receipt(
            active.receipt_key,
            task.key@,
            nonce@,
            ciphertext@,
        ) {
            Some(bytes) => next matches Progress::Replay(replayed) && replayed@ == bytes,
            None => next == failed(Failure::Plugin(PasskeyPluginError::ReceiptDecryption)),
        },
        Ok(CommandClaim::CompletedError(code)) => next == refused(code@),
        Ok(CommandClaim::Conflict) => next == finished(
            FinishAuthenticationError::IdempotencyConflict,
        ),
        Ok(CommandClaim::InProgress) => next == finished(
            FinishAuthenticationError::OperationInProgress,
        ),
    }
}

/// What verifying the response against the consumed challenge leads to: a refusal, or the
/// question whether the challenge's subject is still active.
pub open spec fn after_verification(
    task: Task,
    subject: String,
    outcome: Result<Option<AssertionView>, Seq<char>>,
    next: Next,
) -> bool {
    match outcome {
        Err(error) => next matches Progress::Failed(Failure::Representation(text)) && text@
            == error,
        Ok(None) => next == record(task, ReceiptCode::InvalidCredentials),
        Ok(Some(verified)) => {
            &&& next matches Progress::Act(run, action)
            &&& run.task == task
            &&& action == (Action::ReadDirectory { subject })
            &&& run.stage matches Stage::ReadingDirectory { subject: kept, assertion }
            &&& kept == subject
            &&& assertion@ == verified
        },
    }
}

/// What the consumption of the challenge leads to.
pub open spec fn after_consumption(
    active: ActiveView,
    task: Task,
    step: Consumption,
    now: Timestamp,
    next: Next,
) -> bool {
    match step {
        Consumption::Act(stage, action) => next == act(task, Stage::Consuming(stage), action),
        Consumption::Failed(failure) => next == failed(failure),
        Consumption::Over(None) => next == record(task, ReceiptCode::InvalidRequest),
        Consumption::Over(Some(challenge)) => match authentication_challenge_fault(
            challenge,
            task.key.caller@,
            now,
        ) {
            Some(code) => next == record(task, code),
            None => after_verification(
                task,
                challenge.subject,
                verified_authentication(
                    active.config.relying_party(),
                    challenge.state@,
                    task.request.credential_json@,
                ),
                next,
            ),
        },
    }
}

/// A session is asked for: of the subject, as a user, by passkey, for the configured audience
/// and time; if its end can be written.
pub open spec fn issues(
    active: ActiveView,
    task: Task,
    subject: String,
    passkey_id: String,
    revision: i64,
    now: Timestamp,
    next: Next,
) -> bool {
    let expires_at = now.later(active.config.session_ttl_seconds as int);
    match next {
        Progress::Act(run, Action::IssueSession(session)) => {
            &&& run == (FinishAuthentication {
                task,
                stage: Stage::Issuing { subject, passkey_id, revision },
            })
            &&& session.subject == subject
            &&& session.actor_kind == "user"
            &&& session.assurance == "passkey"
            &&& texts(session.audience@) == active.config.audience
            &&& rfc3339(expires_at.unix_nanos as int) == Ok::<Seq<char>, Seq<char>>(
                session.expires_at@,
            )
        },
        Progress::Failed(Failure::Timestamp(error)) => rfc3339(expires_at.unix_nanos as int)
            == Err::<Seq<char>, Seq<char>>(error@),
        _ => false,
    }
}

/// What the recording of the authentication leads to.
pub open spec fn after_update(
    active: ActiveView,
    task: Task,
    subject: String,
    assertion: Assertion,
    update: Update,
    now: Timestamp,
    next: Next,
) -> bool {
    match update {
        Update::Act(stage, action) => next == act(
            task,
            Stage::Updating { subject, assertion, update: stage },
            action,
        ),
        Update::Failed(failure) => next == failed(failure),
        Update::Over(None) => next == record(task, ReceiptCode::InvalidCredentials),
        Update::Over(Some((passkey_id, revision))) => issues(
            active,
            task,
            subject,
            passkey_id,
            revision,
            now,
            next,
        ),
    }
}

/// What Credential Issuer's answer leads to.
pub open spec fn after_issue(
    task: Task,
    subject: String,
    passkey_id: String,
    revision: i64,
    reply: IssueReply,
    next: Next,
) -> bool {
    match reply {
        IssueReply::Issued(session) => {
            &&& next matches Progress::Encode(run, response)
            &&& run == (FinishAuthentication { task, stage: Stage::Encoding(response) })
            &&& response.subject == subject
            &&& response.passkey_id == passkey_id
            &&& response.revision@ == integer_text(revision as int)
            &&& response.session_id == session.session_id
            &&& response.credential == session.credential
            &&& response.expires_at == session.expires_at
        },
        IssueReply::Disabled => next == record(task, ReceiptCode::Disabled),
        IssueReply::Rejected(error) => next == failed(Failure::IssuerRejected(error)),
        IssueReply::Unavailable => next == failed(Failure::Dependency),
    }
}

/// What the sealed response leads to: a transaction is opened to store it.
pub open spec fn with_receipt(
    task: Task,
    response: FinishAuthenticationResponse,
    receipt: Result<([u8; 12], Vec<u8>), PasskeyPluginError>,
) -> Next {
    match receipt {
        Ok((nonce, ciphertext)) => act(
            task,
            Stage::Beginning(response, nonce, ciphertext),
            Action::Begin { label: "begin authentication receipt transaction" },
        ),
        Err(error) => failed(Failure::Plugin(error)),
    }
}

/// The response is sealed to the command, and a transaction opened to store it.
pub open spec fn sealed(
    active: ActiveView,
    task: Task,
    response: FinishAuthenticationResponse,
    bytes: Seq<u8>,
    next: Next,
) -> bool {
    match next {
        Progress::Act(run, action) => {
            &&& run.task == task
            &&& action == (Action::Begin { label: "begin authentication receipt transaction" })
            &&& run.stage matches Stage::Beginning(kept, nonce, ciphertext)
            &&& kept == response
            &&& ciphertext@ == aes256_gcm_sealed(
                active.receipt_key,
                nonce@,
                task.key@.aad(),
                bytes,
            )
            &&& opened_receipt(active.receipt_key, task.key@, nonce@, ciphertext@) == Some(bytes)
        },
        Progress::Failed(Failure::Plugin(PasskeyPluginError::ReceiptEncryption)) => !sealable(
            task.key@.aad(),
            bytes,
        ),
        Progress::Failed(Failure::Plugin(error)) => error is Random,
        _ => false,
    }
}

/// Whether some step of recording the authentication leads the run there.
pub open spec fn updated(
    active: ActiveView,
    task: Task,
    subject: String,
    assertion: Assertion,
    stage: UpdateStage,
    reply: Reply,
    now: Timestamp,
    next: Next,
) -> bool {
    exists|step: Update| #[trigger]
        updates(task.key, subject, assertion, stage, reply, step) && after_update(
            active,
            task,
            subject,
            assertion,
            step,
            now,
            next,
        )
}

/// How a run goes on from a reply.
pub open spec fn advances(
    active: ActiveView,
    run: FinishAuthentication,
    reply: Reply,
    now: Timestamp,
    next: Next,
) -> bool {
    let task = run.task;
    match (run.stage, reply) {
        (Stage::Reserving, Reply::Affected(inserted)) => next == (if inserted == 1 {
            proceed(task)
        } else {
            act(task, Stage::Loading, Action::LoadCommand { key: task.key })
        }),
        (Stage::Loading, Reply::Command(row)) => claimed(
            active,
            task,
            claim_of(row, task.intent@),
            next,
        ),
        (Stage::Verifying, Reply::Affected(changed)) => if changed == 1 {
            after_consumption(active, task, consumption_start(), now, next)
        } else {
            next == finished(FinishAuthenticationError::OperationInProgress)
        },
        (Stage::Consuming(stage), reply) => after_consumption(
            active,
            task,
            consumption(
                task.request.challenge_id,
                ChallengeKind::Authentication,
                task.key,
                stage,
                reply,
            ),
            now,
            next,
        ),
        (
            Stage::ReadingDirectory { subject, assertion },
            Reply::Directory(answer),
        ) => match status_of(answer, subject@) {
            Err(failure) => next == failed(failure),
            Ok(DirectoryStatus::Active) => after_update(
                active,
                task,
                subject,
                assertion,
                update_start(),
                now,
                next,
            ),
            Ok(_) => next == record(task, ReceiptCode::InvalidCredentials),
        },
        (Stage::Updating { subject, assertion, update }, reply) => updated(
            active,
            task,
            subject,
            assertion,
            update,
            reply,
            now,
            next,
        ),
        (Stage::Issuing { subject, passkey_id, revision }, Reply::Issue(answer)) => after_issue(
            task,
            subject,
            passkey_id,
            revision,
            answer,
            next,
        ),
        (Stage::Encoding(response), Reply::Encoded(bytes)) => sealed(
            active,
            task,
            response,
            bytes@,
            next,
        ),
        (Stage::Beginning(response, nonce, ciphertext), Reply::Done) => next == act(
            task,
            Stage::Completing(response),
            Action::CompleteSuccess { key: task.key, nonce, ciphertext },
        ),
        (Stage::Completing(response), Reply::Affected(changed)) => next == (if changed == 1 {
            act(
                task,
                Stage::Committing(response),
                Action::Commit { label: "commit authentication receipt" },
            )
        } else {
            failed(
                Failure::Plugin(
                    PasskeyPluginError::Invariant("passkey command was not completable"),
                ),
            )
        }),
        (Stage::Committing(response), Reply::Done) => next == Progress::Finished::<
            FinishAuthentication,
            FinishAuthenticationResponse,
            FinishAuthenticationError,
        >(Ok(response)),
        (Stage::Recording(code), Reply::Affected(changed)) => next == (if changed == 1 {
            refused(code.text())
        } else {
            failed(
                Failure::Plugin(
                    PasskeyPluginError::Invariant("passkey command error was not completable"),
                ),
            )
        }),
        (_, reply) => next == failed(stray(reply)),
    }
}

/// How a run starts: who may not call is told so, then a request that is not well formed, and
/// otherwise the command is reserved under the request's fingerprint.
pub open spec fn starts(
    active: ActiveView,
    context: InvocationContext,
    request: FinishAuthenticationRequest,
    request_json: Seq<u8>,
    next: Next,
) -> bool {
    match active.ingress(context) {
        None => next == finished(FinishAuthenticationError::Forbidden),
        Some(caller) => if !is_finish_authentication(request) {
            next == finished(FinishAuthenticationError::InvalidRequest)
        } else {
            &&& next matches Progress::Act(run, action)
            &&& run.stage == Stage::Reserving
            &&& run.task.key.caller@ == caller
            &&& run.task.key.operation == FINISH_AUTHENTICATION_OPERATION
            &&& run.task.key.idempotency_key == request.idempotency_key
            &&& run.task.request == request
            &&& run.task.intent@ == sha256(request_json)
            &&& action == (Action::ReserveCommand { key: run.task.key, intent: run.task.intent })
        },
    }
}

/// Starts a run; `request_json` is the request's JSON form.
pub fn start(
    active: &ActivePasskey,
    context: &InvocationContext,
    request: FinishAuthenticationRequest,
    request_json: &[u8],
) -> (next: Next)
    ensures
        starts(active@, *context, request, request_json@, next),
{
    let caller = match active.authentication_caller(context) {
        Some(caller) => caller,
        None => return Progress::Finished(Err(FinishAuthenticationError::Forbidden)),
    };
    if !valid_finish_authentication(&request) {
        return Progress::Finished(Err(FinishAuthenticationError::InvalidRequest));
    }
    let key = CommandKey {
        caller,
        operation: FINISH_AUTHENTICATION_OPERATION,
        idempotency_key: request.idempotency_key.clone(),
    };
    let intent = intent_hash(request_json);
    let action = Action::ReserveCommand { key: key.copy(), intent };
    let task = Task { key, request, intent };
    go(task, Stage::Reserving, action)
}

fn refuse(code: &str) -> (next: Next)
    ensures
        next == refused(code@),
{
    match finish_authentication_error(code) {
        Ok(error) => Progress::Finished(Err(error)),
        Err(error) => Progress::Failed(Failure::Plugin(error)),
    }
}

fn go(task: Task, stage: Stage, action: Action) -> (next: Next)
    ensures
        next == act(task, stage, action),
{
    Progress::Act(FinishAuthentication { task, stage }, action)
}

fn record_error(task: Task, code: ReceiptCode) -> (next: Next)
    ensures
        next == record(task, code),
{
    let action = Action::CompleteError { key: task.key.copy(), code };
    go(task, Stage::Recording(code), action)
}

fn move_to_verification(task: Task) -> (next: Next)
    ensures
        next == proceed(task),
{
    let action = Action::SetCommandStatus {
        key: task.key.copy(),
        from: CommandStatus::Reserved,
        to: CommandStatus::Verifying,
    };
    go(task, Stage::Verifying, action)
}

fn settle(
    active: &ActivePasskey,
    task: Task,
    claim: Result<CommandClaim, PasskeyPluginError>,
) -> (next: Next)
    ensures
        claimed(active@, task, claim, next),
{
    match claim {
        Err(error) => Progress::Failed(Failure::Plugin(error)),
        Ok(CommandClaim::Claimed) => move_to_verification(task),
        Ok(CommandClaim::CompletedSuccess { nonce, ciphertext }) => match open_receipt(
            active.receipt_cipher(),
            &task.key,
            nonce.as_slice(),
            ciphertext.as_slice(),
        ) {
            Ok(bytes) => Progress::Replay(bytes),
            Err(error) => Progress::Failed(Failure::Plugin(error)),
        },
        Ok(CommandClaim::CompletedError(code)) => refuse(code.as_str()),
        Ok(CommandClaim::Conflict) => Progress::Finished(
            Err(FinishAuthenticationError::IdempotencyConflict),
        ),
        Ok(CommandClaim::InProgress) => Progress::Finished(
            Err(FinishAuthenticationError::OperationInProgress),
        ),
    }
}

/// Goes on with the outcome of verifying the response against the consumed challenge.
pub fn take_outcome(
    task: Task,
    subject: String,
    outcome: Result<Option<Assertion>, String>,
) -> (next: Next)
    ensures
        after_verification(
            task,
            subject,
            asserted(outcome),
            next,
        ),
{
    match outcome {
        Err(error) => Progress::Failed(Failure::Representation(error)),
        Ok(None) => record_error(task, ReceiptCode::InvalidCredentials),
        Ok(Some(assertion)) => {
            let action = Action::ReadDirectory { subject: subject.clone() };
            go(task, Stage::ReadingDirectory { subject, assertion }, action)
        },
    }
}

fn consume(active: &ActivePasskey, task: Task, step: Consumption, now: Timestamp) -> (next: Next)
    ensures
        after_consumption(active@, task, step, now, next),
{
    match step {
        Consumption::Act(stage, action) => go(task, Stage::Consuming(stage), action),
        Consumption::Failed(failure) => Progress::Failed(failure),
        Consumption::Over(None) => record_error(task, ReceiptCode::InvalidRequest),
        Consumption::Over(Some(challenge)) => match check_authentication_challenge(
            &challenge,
            task.key.caller.as_str(),
            now,
        ) {
            Some(code) => record_error(task, code),
            None => {
                let outcome = verify_authentication(
                    active.webauthn(),
                    challenge.state.as_str(),
                    task.request.credential_json.as_str(),
                );
                take_outcome(task, challenge.subject, outcome)
            },
        },
    }
}

fn issue(
    active: &ActivePasskey,
    task: Task,
    subject: String,
    passkey_id: String,
    revision: i64,
    now: Timestamp,
) -> (next: Next)
    requires
        now.reaches(active@.config.session_ttl_seconds as int),
    ensures
        issues(active@, task, subject, passkey_id, revision, now, next),
{
    let expires_at = match format_time(now.plus_seconds(active.session_ttl_seconds())) {
        Ok(expires_at) => expires_at,
        Err(failure) => return Progress::Failed(failure),
    };
    let session = NewSession {
        subject: subject.clone(),
        actor_kind: "user",
        assurance: "passkey",
        audience: active.audience(),
        expires_at,
    };
    go(
        task,
        Stage::Issuing { subject, passkey_id, revision },
        Action::IssueSession(session),
    )
}

fn update(
    active: &ActivePasskey,
    task: Task,
    subject: String,
    assertion: Assertion,
    step: Update,
    now: Timestamp,
) -> (next: Next)
    requires
        now.reaches(active@.config.session_ttl_seconds as int),
    ensures
        after_update(active@, task, subject, assertion, step, now, next),
{
    match step {
        Update::Act(stage, action) => go(
            task,
            Stage::Updating { subject, assertion, update: stage },
            action,
        ),
        Update::Failed(failure) => Progress::Failed(failure),
        Update::Over(None) => record_error(task, ReceiptCode::InvalidCredentials),
        Update::Over(Some((passkey_id, revision))) => issue(
            active,
            task,
            subject,
            passkey_id,
            revision,
            now,
        ),
    }
}

fn answer(
    task: Task,
    subject: String,
    passkey_id: String,
    revision: i64,
    reply: IssueReply,
) -> (next: Next)
    ensures
        after_issue(task, subject, passkey_id, revision, reply, next),
{
    match reply {
        IssueReply::Issued(session) => {
            let response = FinishAuthenticationResponse {
                subject,
                passkey_id,
                revision: signed_text(revision),
                session_id: session.session_id,
                credential: session.credential,
                expires_at: session.expires_at,
            };
            let copy = response.copy();
            Progress::Encode(FinishAuthentication { task, stage: Stage::Encoding(copy) }, response)
        },
        IssueReply::Disabled => record_error(task, ReceiptCode::Disabled),
        IssueReply::Rejected(error) => Progress::Failed(Failure::IssuerRejected(error)),
        IssueReply::Unavailable => Progress::Failed(Failure::Dependency),
    }
}

/// Goes on with the sealed response, or with why it could not be sealed.
pub fn take_receipt(
    task: Task,
    response: FinishAuthenticationResponse,
    receipt: Result<([u8; 12], Vec<u8>), PasskeyPluginError>,
) -> (next: Next)
    ensures
        next == with_receipt(task, response, receipt),
{
    match receipt {
        Ok((nonce, ciphertext)) => go(
            task,
            Stage::Beginning(response, nonce, ciphertext),
            Action::Begin { label: "begin authentication receipt transaction" },
        ),
        Err(error) => Progress::Failed(Failure::Plugin(error)),
    }
}

fn seal(
    active: &ActivePasskey,
    task: Task,
    response: FinishAuthenticationResponse,
    bytes: &[u8],
) -> (next: Next)
    ensures
        sealed(active@, task, response, bytes@, next),
{
    let aad = task.key.aad();
    let receipt = active.receipt_cipher().encrypt(bytes, aad.as_slice());
    take_receipt(task, response, receipt)
}

impl FinishAuthentication {
    /// Goes on from the reply to the action that the run last asked for.
    pub fn resume(self, active: &ActivePasskey, reply: Reply, now: Timestamp) -> (next: Next)
        requires
            now.reaches(active@.config.session_ttl_seconds as int),
        ensures
            advances(active@, self, reply, now, next),
    {
        let FinishAuthentication { task, stage } = self;
        match (stage, reply) {
            (Stage::Reserving, Reply::Affected(inserted)) => match claim_reserved(inserted) {
                Some(_) => move_to_verification(task),
                None => {
                    let action = Action::LoadCommand { key: task.key.copy() };
                    go(task, Stage::Loading, action)
                },
            },
            (Stage::Loading, Reply::Command(row)) => {
                let claim = claim_stored(row, task.intent.as_slice());
                settle(active, task, claim)
            },
            (Stage::Verifying, Reply::Affected(changed)) => {
                if changed == 1 {
                    consume(active, task, begin_consumption(), now)
                } else {
                    Progress::Finished(Err(FinishAuthenticationError::OperationInProgress))
                }
            },
            (Stage::Consuming(stage), reply) => {
                let step = consume_challenge(
                    &task.request.challenge_id,
                    ChallengeKind::Authentication,
                    &task.key,
                    stage,
                    reply,
                );
                consume(active, task, step, now)
            },
            (Stage::ReadingDirectory { subject, assertion }, Reply::Directory(answer)) => {
                match directory_status(answer, subject.as_str()) {
                    Err(failure) => Progress::Failed(failure),
                    Ok(DirectoryStatus::Active) => update(
                        active,
                        task,
                        subject,
                        assertion,
                        begin_update(),
                        now,
                    ),
                    Ok(_) => record_error(task, ReceiptCode::InvalidCredentials),
                }
            },
            (Stage::Updating { subject, assertion, update: stage }, reply) => {
                let step = update_authenticated_passkey(
                    &task.key,
                    &subject,
                    &assertion,
                    stage,
                    reply,
                );
                let next = update(active, task, subject, assertion, step, now);
                assert(updates(task.key, subject, assertion, stage, reply, step));
                next
            },
            (Stage::Issuing { subject, passkey_id, revision }, Reply::Issue(reply)) => answer(
                task,
                subject,
                passkey_id,
                revision,
                reply,
            ),
            (Stage::Encoding(response), Reply::Encoded(bytes)) => seal(
                active,
                task,
                response,
                bytes.as_slice(),
            ),
            (Stage::Beginning(response, nonce, ciphertext), Reply::Done) => {
                let action = Action::CompleteSuccess { key: task.key.copy(), nonce, ciphertext };
                go(task, Stage::Completing(response), action)
            },
            (Stage::Completing(response), Reply::Affected(changed)) => {
                if changed == 1 {
                    go(
                        task,
                        Stage::Committing(response),
                        Action::Commit { label: "commit authentication receipt" },
                    )
                } else {
                    Progress::Failed(
                        Failure::Plugin(
                            PasskeyPluginError::Invariant("passkey command was not completable"),
                        ),
                    )
                }
            },
            (Stage::Committing(response), Reply::Done) => Progress::Finished(Ok(response)),
            (Stage::Recording(code), Reply::Affected(changed)) => {
                if changed == 1 {
                    refuse(code.as_str())
                } else {
                    Progress::Failed(
                        Failure::Plugin(
                            PasskeyPluginError::Invariant(
                                "passkey command error was not completable",
                            ),
                        ),
                    )
                }
            },
            (_, reply) => Progress::Failed(stray_reply(reply)),
        }
    }
}

} // verus!
