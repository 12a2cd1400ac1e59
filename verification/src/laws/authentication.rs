//! What finishing an authentication does to the stored state, and when it asks for a session.

use lenso_kernel::InvocationContext;
use vstd::prelude::*;
use webauthn_rs::prelude::AuthenticationResult;

use crate::active::ActiveView;
use crate::authenticated::{passkey_with, UpdateStage};
use crate::ceremony::{
    authentication_response, authentication_state, finished_authentication, passkey_text,
    result_counter, result_credential_id, stored_passkey, texts, updated_credential, Assertion,
    AssertionView,
};
use crate::challenge::ConsumeStage;
use crate::command::{opened_receipt, CommandStatus, ReceiptCode};
use crate::contract::{
    FinishAuthenticationError, FinishAuthenticationRequest, FinishAuthenticationResponse,
};
use crate::failure::{Failure, PasskeyPluginError};
use crate::finish_authentication::{
    advances, failed, finished, refused, starts, FinishAuthentication, Next, Stage, Task,
};
use crate::instant::{rfc3339, Timestamp};
use crate::laws::history::{
    after_steps, asks_session, cannot_draw, cannot_seal, cannot_write_later,
    claims_read_the_standing, heard, holds_open, holds_receipt, holds_refusal, left_open, run_on,
    same_commands_but, same_state, sessions_asked, standing, step_on, waiting, Heard, Standing,
    Step,
};
use crate::laws::replay::codes_read_back_as_their_errors;
use crate::model::{
    shows_challenge, shows_passkeys, ChallengeRecord, Database, PasskeyRecord, Store,
    SubjectRecord,
};
use crate::rows::PasskeyRow;
use crate::storage::{Action, ChallengeKind, IssueReply, NewSession, Progress, Reply};
use crate::text::integer_text;

verus! {

pub type AuthenticationStep = Step<
    FinishAuthentication,
    FinishAuthenticationResponse,
    FinishAuthenticationError,
>;

/// A run of finish-authentication, step by step.
pub open spec fn authentication_run(
    active: ActiveView,
    first: Next,
    steps: Seq<AuthenticationStep>,
) -> bool {
    forall|i: int|
        0 <= i < steps.len() ==> {
            &&& waiting(after_steps(first, steps, i)) matches Some(run)
            &&& advances(active, run, (#[trigger] steps[i]).reply, steps[i].now, steps[i].next)
        }
}

/// The challenge that a request names, as it was.
pub open spec fn challenge_before(before: Store, task: Task) -> ChallengeRecord {
    before.challenges[task.request.challenge_id@]
}

/// Whether a request names an authentication challenge.
pub open spec fn names_challenge(before: Store, task: Task) -> bool {
    &&& before.challenges.dom().contains(task.request.challenge_id@)
    &&& challenge_before(before, task).kind == ChallengeKind::Authentication
}

/// Whether a request names an authentication challenge of its caller that was not consumed.
pub open spec fn can_consume(before: Store, task: Task) -> bool {
    &&& names_challenge(before, task)
    &&& challenge_before(before, task).caller == task.key.caller@
    &&& challenge_before(before, task).consumed_at is None
}

/// The challenges with the named one consumed, by this command.
pub open spec fn challenge_consumed(before: Store, after: Store, task: Task) -> bool {
    let id = task.request.challenge_id@;
    &&& after.challenges.dom().contains(id)
    &&& after.challenges[id].consumed_at is Some
    &&& after.challenges == before.challenges.insert(
        id,
        ChallengeRecord {
            consumed_at: after.challenges[id].consumed_at,
            consumed_by: Some((task.key.operation@, task.key.idempotency_key@)),
            ..challenge_before(before, task)
        },
    )
}

/// The named challenge was looked at: it is consumed if it could be, and nothing else changed.
pub open spec fn looked_at(before: Store, after: Store, task: Task) -> bool {
    &&& after.subjects == before.subjects
    &&& after.passkeys == before.passkeys
    &&& if can_consume(before, task) {
        challenge_consumed(before, after, task)
    } else {
        after.challenges == before.challenges
    }
}

/// What the response proves against the ceremony of the named challenge, if both are well formed
/// and it proves something; otherwise why the ceremony could not be read, or nothing.
pub open spec fn verification(active: ActiveView, before: Store, task: Task) -> Result<
    Option<AssertionView>,
    Seq<char>,
> {
    match authentication_state(challenge_before(before, task).state) {
        Err(error) => Err(error),
        Ok(state) => match authentication_response(task.request.credential_json@) {
            None => Ok(None),
            Some(response) => match finished_authentication(
                active.config.relying_party(),
                response,
                state,
            ) {
                None => Ok(None),
                Some(result) => Ok(
                    Some(
                        AssertionView {
                            credential_id: result_credential_id(result),
                            counter: result_counter(result),
                            result,
                        },
                    ),
                ),
            },
        },
    }
}

/// The text of a stored passkey after a result: nothing where the result is another credential's,
/// and an error where the passkey could not be read or its new value not be written.
pub open spec fn renewed(passkey: Seq<char>, result: AuthenticationResult) -> Result<
    Option<Seq<char>>,
    Seq<char>,
> {
    match stored_passkey(passkey) {
        Err(error) => Err(error),
        Ok(stored) => match updated_credential(stored, result) {
            None => Ok(None),
            Some(updated) => match passkey_text(updated) {
                Err(error) => Err(error),
                Ok(text) => Ok(Some(text)),
            },
        },
    }
}

/// Whether a passkey of a subject has a credential and is not revoked.
pub open spec fn is_usable(
    before: Store,
    subject: Seq<char>,
    credential_id: Seq<u8>,
    passkey_id: Seq<char>,
) -> bool {
    &&& before.passkeys.dom().contains(passkey_id)
    &&& before.passkeys[passkey_id].subject == subject
    &&& before.passkeys[passkey_id].revoked_at is None
    &&& before.passkeys[passkey_id].credential_id == credential_id
}

/// Whether a passkey takes an assertion: its counter moved on, where both sides count, and its
/// value takes the result.
pub open spec fn takes(record: PasskeyRecord, assertion: AssertionView) -> bool {
    &&& assertion.counter == 0 || record.sign_count <= 0 || assertion.counter > record.sign_count
    &&& renewed(record.passkey, assertion.result) matches Ok(Some(_))
}

/// Whether a passkey turns an assertion down: both sides count and its counter did not move on, or
/// the result is another credential's.
pub open spec fn turns_down(record: PasskeyRecord, assertion: AssertionView) -> bool {
    ||| assertion.counter > 0 && record.sign_count > 0 && assertion.counter <= record.sign_count
    ||| renewed(record.passkey, assertion.result) matches Ok(None)
}

/// A passkey after an assertion: the greater counter, the updated value, the next revision.
pub open spec fn used(
    record: PasskeyRecord,
    assertion: AssertionView,
    last_used_at: Option<int>,
) -> PasskeyRecord {
    PasskeyRecord {
        passkey: renewed(record.passkey, assertion.result)->Ok_0->0,
        sign_count: if assertion.counter > record.sign_count {
            assertion.counter as int
        } else {
            record.sign_count
        },
        revision: record.revision + 1,
        last_used_at,
        ..record
    }
}

/// Whether the named challenge is of use to a run that is not over before a time.
pub open spec fn is_in_time(before: Store, task: Task, earliest: int) -> bool {
    &&& can_consume(before, task)
    &&& earliest < challenge_before(before, task).expires_at
}

/// The challenge was the caller's own, unexpired and unconsumed, and is consumed now; and the
/// response was verified against it.
pub open spec fn earned(
    active: ActiveView,
    before: Store,
    after: Store,
    task: Task,
    earliest: int,
) -> bool {
    &&& is_in_time(before, task, earliest)
    &&& challenge_consumed(before, after, task)
    &&& verification(active, before, task) matches Ok(Some(_))
}

/// The used passkey has taken the assertion.
pub open spec fn passkey_used(
    active: ActiveView,
    before: Store,
    after: Store,
    task: Task,
    passkey_id: Seq<char>,
) -> bool {
    let subject = challenge_before(before, task).subject;
    let assertion = verification(active, before, task)->Ok_0->0;
    &&& is_usable(before, subject, assertion.credential_id, passkey_id)
    &&& takes(before.passkeys[passkey_id], assertion)
    &&& after.passkeys.dom().contains(passkey_id)
    &&& after.passkeys[passkey_id].last_used_at is Some
    &&& after.passkeys == before.passkeys.insert(
        passkey_id,
        used(
            before.passkeys[passkey_id],
            assertion,
            after.passkeys[passkey_id].last_used_at,
        ),
    )
}

/// The revision of the subject's credential set has advanced by one.
pub open spec fn revision_advanced(before: Store, after: Store, subject: Seq<char>) -> bool {
    &&& before.subjects.dom().contains(subject)
    &&& after.subjects == before.subjects.insert(
        subject,
        SubjectRecord {
            revision: before.subjects[subject].revision + 1,
            ..before.subjects[subject]
        },
    )
}

/// A verified authentication is recorded.
pub open spec fn recorded(
    active: ActiveView,
    before: Store,
    after: Store,
    task: Task,
    earliest: int,
    passkey_id: Seq<char>,
) -> bool {
    &&& earned(active, before, after, task, earliest)
    &&& passkey_used(active, before, after, task, passkey_id)
    &&& revision_advanced(before, after, challenge_before(before, task).subject)
}

/// A verified authentication is recorded, of some passkey.
pub open spec fn is_recorded(
    active: ActiveView,
    before: Store,
    after: Store,
    task: Task,
    earliest: int,
) -> bool {
    exists|id: Seq<char>| #[trigger] recorded(active, before, after, task, earliest, id)
}

/// What a response says: the challenge's subject, the passkey that was used, the revision that
/// its credential set has now, and the session that Credential Issuer made.
pub open spec fn tells(
    active: ActiveView,
    before: Store,
    after: Store,
    task: Task,
    earliest: int,
    told: Heard,
    response: FinishAuthenticationResponse,
) -> bool {
    let subject = challenge_before(before, task).subject;
    &&& recorded(active, before, after, task, earliest, response.passkey_id@)
    &&& response.subject@ == subject
    &&& response.revision@ == integer_text(after.subjects[subject].revision)
    &&& told.issue matches Some(IssueReply::Issued(session))
    &&& response.session_id == session.session_id
    &&& response.credential == session.credential
    &&& response.expires_at == session.expires_at
}

/// Why a fresh authentication is refused. The reasons are tried in turn, and the first that applies
/// is given: the challenge is not the caller's, was used, has expired; the response does not
/// verify, the directory does not call the subject active, or no passkey of the subject takes the
/// assertion, which are told alike; Credential Issuer calls the subject disabled.
pub open spec fn refused_because(
    active: ActiveView,
    before: Store,
    task: Task,
    earliest: int,
    latest: int,
    told: Heard,
    code: ReceiptCode,
) -> bool {
    let subject = challenge_before(before, task).subject;
    match code {
        ReceiptCode::InvalidRequest => {
            ||| !names_challenge(before, task)
            ||| challenge_before(before, task).caller != task.key.caller@
        },
        ReceiptCode::ChallengeUsed => {
            &&& names_challenge(before, task)
            &&& challenge_before(before, task).caller == task.key.caller@
            &&& challenge_before(before, task).consumed_at is Some
        },
        ReceiptCode::ChallengeExpired => {
            &&& can_consume(before, task)
            &&& latest >= challenge_before(before, task).expires_at
        },
        ReceiptCode::InvalidCredentials => {
            &&& is_in_time(before, task, earliest)
            &&& match verification(active, before, task) {
                Ok(None) => true,
                Ok(Some(assertion)) => told.denies(subject) || told.vouches(subject)
                    && is_of_no_use(before, subject, assertion),
                Err(_) => false,
            }
        },
        ReceiptCode::Disabled => {
            &&& is_in_time(before, task, earliest)
            &&& verification(active, before, task) matches Ok(Some(assertion))
            &&& told.vouches(subject)
            &&& !is_of_no_use(before, subject, assertion)
            &&& told.issue == Some(IssueReply::Disabled)
        },
        _ => false,
    }
}

/// Whether every passkey of the subject that has the credential turns an assertion down.
pub open spec fn is_of_no_use(before: Store, subject: Seq<char>, assertion: AssertionView) -> bool {
    forall|id: Seq<char>| #[trigger]
        is_usable(before, subject, assertion.credential_id, id) ==> turns_down(
            before.passkeys[id],
            assertion,
        )
}

/// Whether a failure is of reading the passkey that was used.
pub open spec fn cannot_read(
    before: Store,
    subject: Seq<char>,
    assertion: AssertionView,
    failure: Failure,
) -> bool {
    &&& failure matches Failure::Representation(text)
    &&& exists|id: Seq<char>|
        {
            &&& #[trigger] is_usable(before, subject, assertion.credential_id, id)
            &&& assertion.counter == 0 || before.passkeys[id].sign_count <= 0 || assertion.counter
                > before.passkeys[id].sign_count
            &&& renewed(before.passkeys[id].passkey, assertion.result) == Err::<
                Option<Seq<char>>,
                Seq<char>,
            >(text@)
        }
}

/// Why a fresh authentication fails: an action failed; the stored ceremony could not be read; the
/// directory gave no status; the stored passkey could not be read; the session's end cannot be
/// written; Credential Issuer failed, or refused for another reason than a disabled subject; no
/// random bytes could be drawn; or the response is too long to seal.
pub open spec fn fails_because(
    active: ActiveView,
    before: Store,
    task: Task,
    earliest: int,
    latest: int,
    told: Heard,
    failure: Failure,
) -> bool {
    let subject = challenge_before(before, task).subject;
    match told.fault {
        Some(error) => failure == Failure::Plugin(error),
        None => {
            &&& is_in_time(before, task, earliest)
            &&& match verification(active, before, task) {
                Err(error) => failure matches Failure::Representation(text) && text@ == error,
                Ok(None) => false,
                Ok(Some(assertion)) => {
                    ||| told.lacks_status(subject, failure)
                    ||| told.vouches(subject) && cannot_read(before, subject, assertion, failure)
                    ||| told.vouches(subject) && !is_of_no_use(before, subject, assertion)
                        && match told.issue {
                        None => cannot_write_later(
                            earliest,
                            latest,
                            active.config.session_ttl_seconds as int,
                            failure,
                        ),
                        Some(IssueReply::Issued(_)) => cannot_draw(failure) || cannot_seal(
                            told,
                            task.key@,
                            failure,
                        ),
                        Some(IssueReply::Disabled) => false,
                        Some(IssueReply::Rejected(error)) => failure == Failure::IssuerRejected(
                            error,
                        ),
                        Some(IssueReply::Unavailable) => failure == Failure::Dependency,
                    }
                },
            }
        },
    }
}

/// A command that has asked for a session is kept: it is issuing still, or completed.
pub open spec fn fails_closed(store: Store, task: Task) -> bool {
    &&& store.commands.dom().contains(task.key@)
    &&& store.commands[task.key@].intent == task.intent@
    &&& store.commands[task.key@].status is Issuing || !store.commands[task.key@].is_open()
}

/// What a fresh authentication has done that succeeded, whether or not it was told so: it asked for
/// a session, the stores differ as its response tells, and the receipt holds the response.
pub open spec fn has_succeeded(
    active: ActiveView,
    task: Task,
    before: Store,
    after: Store,
    earliest: int,
    told: Heard,
    asked: nat,
    response: FinishAuthenticationResponse,
) -> bool {
    &&& asked == 1
    &&& told.vouches(challenge_before(before, task).subject)
    &&& told.bytes matches Some(bytes)
    &&& same_commands_but(before, after, task.key@)
    &&& holds_receipt(after, task.key@, task.intent@, active.receipt_key, bytes)
    &&& tells(active, before, after, task, earliest, told, response)
}

/// What a fresh authentication has done that was refused, whether or not it was told so: the
/// refusal is recorded, and the challenge consumed if it could be. Only where Credential Issuer
/// refused is the authentication recorded too.
pub open spec fn was_refused(
    active: ActiveView,
    task: Task,
    before: Store,
    after: Store,
    earliest: int,
    latest: int,
    told: Heard,
    asked: nat,
    code: ReceiptCode,
) -> bool {
    &&& refused_because(active, before, task, earliest, latest, told, code)
    &&& if code is Disabled {
        &&& asked == 1
        &&& is_recorded(active, before, after, task, earliest)
    } else {
        &&& asked == 0
        &&& looked_at(before, after, task)
    }
    &&& same_commands_but(before, after, task.key@)
    &&& holds_refusal(after, task.key@, task.intent@, code.text())
}

/// What a fresh authentication has done that is over without an answer: its command is left open,
/// and nothing else has changed but the challenge; or the authentication is recorded and the
/// command at issuing, as it is once a session was asked for. Where an action failed, that may have
/// been done or not, and with it the success or the refusal.
pub open spec fn was_interrupted(
    active: ActiveView,
    task: Task,
    before: Store,
    after: Store,
    earliest: int,
    latest: int,
    told: Heard,
    asked: nat,
) -> bool {
    ||| left_open(before, after, task.key@, task.intent@, told) && {
        ||| asked == 0 && looked_at(before, after, task)
        ||| asked == 0 && told.fault is Some && same_state(before, after)
        ||| after.commands[task.key@].status is Issuing && is_recorded(
            active,
            before,
            after,
            task,
            earliest,
        )
    }
    ||| told.fault is Some && {
        ||| exists|code: ReceiptCode| #[trigger]
            was_refused(active, task, before, after, earliest, latest, told, asked, code)
        ||| exists|response: FinishAuthenticationResponse| #[trigger]
            has_succeeded(active, task, before, after, earliest, told, asked, response)
    }
}

/// Whether a command stands so that it cannot be answered: its receipt does not open, or its code
/// is none of this operation.
pub open spec fn is_unanswerable(stands: Standing, last: Next) -> bool {
    match stands {
        Standing::Succeeded(None) => last == failed(
            Failure::Plugin(PasskeyPluginError::ReceiptDecryption),
        ),
        Standing::Refused(code) => last == refused(code),
        _ => false,
    }
}

/// What a run that is over has done, given the store it began with, the earliest and latest times
/// of its steps, what it was told, and how often it asked for a session. A command that was there
/// before is answered as it stands, nothing is changed and no session is asked for. A fresh one
/// consumes the challenge it names, if that is its caller's to consume, whatever comes of it. It
/// asks for at most one session, and only once the authentication is recorded; then the command is
/// never fresh again. It fails for a reason of its own, and then its command is left open, and at
/// issuing if a session was asked for; unless what failed was done nevertheless.
pub open spec fn authentication_outcome(
    active: ActiveView,
    task: Task,
    before: Store,
    after: Store,
    earliest: int,
    latest: int,
    told: Heard,
    asked: nat,
    last: Next,
) -> bool {
    let key = task.key@;
    let intent = task.intent@;
    &&& asked <= 1
    &&& asked == 1 ==> told.vouches(challenge_before(before, task).subject) && fails_closed(
        after,
        task,
    )
    &&& last !is Failed ==> told.fault is None
    &&& match (standing(before, key, intent, active.receipt_key), last) {
        (Standing::Fresh, Progress::Finished(Ok(response))) => has_succeeded(
            active,
            task,
            before,
            after,
            earliest,
            told,
            asked,
            response,
        ),
        (Standing::Fresh, Progress::Finished(Err(_))) => exists|code: ReceiptCode| #[trigger]
            was_refused(active, task, before, after, earliest, latest, told, asked, code)
                && last == refused(code.text()),
        (Standing::Fresh, Progress::Replay(_)) => false,
        (Standing::Conflict, Progress::Finished(r)) => {
            &&& asked == 0
            &&& after == before
            &&& r == Err::<FinishAuthenticationResponse, _>(
                FinishAuthenticationError::IdempotencyConflict,
            )
        },
        (Standing::InProgress, Progress::Finished(r)) => {
            &&& asked == 0
            &&& after == before
            &&& r == Err::<FinishAuthenticationResponse, _>(
                FinishAuthenticationError::OperationInProgress,
            )
        },
        (Standing::Refused(code), Progress::Finished(_)) => {
            &&& asked == 0
            &&& after == before
            &&& last == refused(code)
        },
        (Standing::Succeeded(Some(stored)), Progress::Replay(replayed)) => {
            &&& asked == 0
            &&& after == before
            &&& replayed@ == stored
        },
        (Standing::Fresh, Progress::Failed(failure)) => {
            &&& fails_because(active, before, task, earliest, latest, told, failure)
            &&& was_interrupted(active, task, before, after, earliest, latest, told, asked)
        },
        (stands, Progress::Failed(failure)) => {
            &&& asked == 0
            &&& after == before
            &&& match told.fault {
                Some(error) => failure == Failure::Plugin(error),
                None => is_unanswerable(stands, last),
            }
        },
        (_, Progress::Finished(_)) => false,
        (_, Progress::Replay(_)) => false,
        (_, _) => true,
    }
}

/// What holds while the challenge is being consumed.
spec fn holds_consuming(
    task: Task,
    before: Store,
    stage: ConsumeStage,
    action: Action,
    db: Database,
) -> bool {
    let id = task.request.challenge_id@;
    &&& same_state(before, db.committed)
    &&& holds_open(db.committed, task.key@, task.intent@)
    &&& db.committed.commands[task.key@].status is Verifying
    &&& match (stage, action) {
        (ConsumeStage::Beginning, Action::Begin { .. }) => db.open is None,
        (ConsumeStage::Locking, Action::LockChallenge { challenge_id, kind }) => {
            &&& challenge_id@ == id
            &&& kind == ChallengeKind::Authentication
            &&& db.open == Some(db.committed)
        },
        (ConsumeStage::Missing, Action::Commit { .. }) => {
            &&& db.open == Some(db.committed)
            &&& !names_challenge(before, task)
        },
        (ConsumeStage::Spent(row), Action::Commit { .. }) => {
            &&& db.open == Some(db.committed)
            &&& names_challenge(before, task)
            &&& !can_consume(before, task)
            &&& shows_challenge(row, challenge_before(before, task))
        },
        (
            ConsumeStage::Consuming(row),
            Action::ConsumeChallenge { challenge_id, operation, idempotency_key },
        ) => {
            &&& challenge_id@ == id
            &&& operation@ == task.key.operation@
            &&& idempotency_key@ == task.key.idempotency_key@
            &&& db.open == Some(db.committed)
            &&& can_consume(before, task)
            &&& shows_challenge(row, challenge_before(before, task))
        },
        (ConsumeStage::Consumed(row), Action::Commit { .. }) => {
            &&& db.open matches Some(open)
            &&& open.commands == db.committed.commands
            &&& looked_at(before, open, task)
            &&& can_consume(before, task)
            &&& shows_challenge(row, challenge_before(before, task))
        },
        _ => false,
    }
}

/// What holds while the authentication is being recorded.
spec fn holds_updating(
    active: ActiveView,
    task: Task,
    before: Store,
    earliest: int,
    subject: String,
    assertion: Assertion,
    stage: UpdateStage,
    action: Action,
    db: Database,
) -> bool {
    let key = task.key@;
    &&& verification(active, before, task) == Ok::<Option<AssertionView>, Seq<char>>(
        Some(assertion@),
    )
    &&& subject@ == challenge_before(before, task).subject
    &&& looked_at(before, db.committed, task)
    &&& earned(active, before, db.committed, task, earliest)
    &&& holds_open(db.committed, key, task.intent@)
    &&& db.committed.commands[key].status is Verifying
    &&& match (stage, action) {
        (UpdateStage::Beginning, Action::Begin { .. }) => db.open is None,
        (UpdateStage::LockingSubject, Action::LockSubjectOptional { subject: asked }) => {
            &&& asked == subject
            &&& db.open == Some(db.committed)
        },
        (UpdateStage::LockingPasskeys, Action::LockPasskeys { subject: asked }) => {
            &&& asked == subject
            &&& before.subjects.dom().contains(subject@)
            &&& db.open == Some(db.committed)
        },
        (
            UpdateStage::UpdatingPasskey { passkey_id },
            Action::UpdatePasskey { passkey_id: asked, passkey, sign_count },
        ) => {
            &&& asked == passkey_id
            &&& before.subjects.dom().contains(subject@)
            &&& db.open == Some(db.committed)
            &&& is_usable(before, subject@, assertion.credential_id@, passkey_id@)
            &&& takes(before.passkeys[passkey_id@], assertion@)
            &&& renewed(before.passkeys[passkey_id@].passkey, assertion.result) == Ok::<
                Option<Seq<char>>,
                Seq<char>,
            >(Some(passkey@))
            &&& sign_count == assertion.counter
        },
        (
            UpdateStage::AdvancingSubject { passkey_id },
            Action::AdvanceSubject { subject: asked, .. },
        ) => {
            &&& asked == subject
            &&& before.subjects.dom().contains(subject@)
            &&& db.open matches Some(open)
            &&& open.commands == db.committed.commands
            &&& open.challenges == db.committed.challenges
            &&& open.subjects == before.subjects
            &&& passkey_used(active, before, open, task, passkey_id@)
        },
        (
            UpdateStage::MarkingIssuing { passkey_id, revision },
            Action::MarkIssuing { key: asked },
        ) => {
            &&& asked == task.key
            &&& db.open matches Some(open)
            &&& open.commands == db.committed.commands
            &&& open.challenges == db.committed.challenges
            &&& passkey_used(active, before, open, task, passkey_id@)
            &&& revision_advanced(before, open, subject@)
            &&& revision == open.subjects[subject@].revision
        },
        (UpdateStage::Committing { passkey_id, revision }, Action::Commit { .. }) => {
            &&& db.open matches Some(open)
            &&& same_commands_but(before, open, key)
            &&& holds_open(open, key, task.intent@)
            &&& open.commands[key].status is Issuing
            &&& open.challenges == db.committed.challenges
            &&& passkey_used(active, before, open, task, passkey_id@)
            &&& revision_advanced(before, open, subject@)
            &&& revision == open.subjects[subject@].revision
        },
        (UpdateStage::RollingBack, Action::Rollback { .. }) => {
            &&& db.open is Some
            &&& is_of_no_use(before, subject@, assertion@)
        },
        _ => false,
    }
}

/// What holds once the authentication is recorded and until the command is completed.
spec fn holds_issuing(
    active: ActiveView,
    task: Task,
    before: Store,
    earliest: int,
    passkey_id: Seq<char>,
    committed: Store,
) -> bool {
    let key = task.key@;
    &&& holds_open(committed, key, task.intent@)
    &&& committed.commands[key].status is Issuing
    &&& recorded(active, before, committed, task, earliest, passkey_id)
}

/// What holds of a database while a run on it waits or is over, given the store it began with.
spec fn holds(
    active: ActiveView,
    task: Task,
    before: Store,
    earliest: int,
    latest: int,
    told: Heard,
    asked: nat,
    progress: Next,
    db: Database,
) -> bool {
    let key = task.key@;
    let intent = task.intent@;
    match progress {
        Progress::Act(run, action) => {
            &&& run.task == task
            &&& told.fault is None
            &&& same_commands_but(before, db.committed, key)
            &&& run.stage is Reserving || run.stage is Loading || !before.commands.dom().contains(
                key,
            )
            &&& match (run.stage, action) {
                (Stage::Reserving, Action::ReserveCommand { key: sought, intent: brought }) => {
                    &&& told.directory is None
                    &&& asked == 0
                    &&& told.issue is None
                    &&& sought == task.key
                    &&& brought == task.intent
                    &&& db == (Database { committed: before, open: None })
                },
                (Stage::Loading, Action::LoadCommand { key: sought }) => {
                    &&& asked == 0
                    &&& told.issue is None
                    &&& sought == task.key
                    &&& db == (Database { committed: before, open: None })
                    &&& before.commands.dom().contains(key)
                },
                (Stage::Verifying, Action::SetCommandStatus { key: sought, from, to }) => {
                    &&& told.directory is None
                    &&& asked == 0
                    &&& told.issue is None
                    &&& sought == task.key
                    &&& from == CommandStatus::Reserved
                    &&& to == CommandStatus::Verifying
                    &&& db.open is None
                    &&& same_state(before, db.committed)
                    &&& holds_open(db.committed, key, intent)
                    &&& db.committed.commands[key].status == CommandStatus::Reserved
                },
                (Stage::Consuming(stage), action) => {
                    &&& told.directory is None
                    &&& asked == 0
                    &&& told.issue is None
                    &&& holds_consuming(task, before, stage, action, db)
                },
                (
                    Stage::ReadingDirectory { subject, assertion },
                    Action::ReadDirectory { subject: sought },
                ) => {
                    &&& told.directory is None
                    &&& asked == 0
                    &&& told.issue is None
                    &&& sought == subject
                    &&& db.open is None
                    &&& holds_open(db.committed, key, intent)
                    &&& db.committed.commands[key].status is Verifying
                    &&& looked_at(before, db.committed, task)
                    &&& earned(active, before, db.committed, task, earliest)
                    &&& verification(active, before, task) == Ok::<
                        Option<AssertionView>,
                        Seq<char>,
                    >(Some(assertion@))
                    &&& subject@ == challenge_before(before, task).subject
                },
                (Stage::Updating { subject, assertion, update }, action) => {
                    &&& asked == 0
                    &&& told.issue is None
                    &&& told.vouches(challenge_before(before, task).subject)
                    &&& holds_updating(
                        active,
                        task,
                        before,
                        earliest,
                        subject,
                        assertion,
                        update,
                        action,
                        db,
                    )
                },
                (Stage::Issuing { subject, passkey_id, revision }, Action::IssueSession(_)) => {
                    &&& asked == 0
                    &&& told.issue is None
                    &&& told.vouches(challenge_before(before, task).subject)
                    &&& db.open is None
                    &&& holds_issuing(active, task, before, earliest, passkey_id@, db.committed)
                    &&& subject@ == challenge_before(before, task).subject
                    &&& revision == db.committed.subjects[subject@].revision
                },
                (Stage::Beginning(response, nonce, ciphertext), Action::Begin { .. }) => {
                    &&& asked == 1
                    &&& told.vouches(challenge_before(before, task).subject)
                    &&& told.bytes is Some
                    &&& opened_receipt(active.receipt_key, key, nonce@, ciphertext@) == told.bytes
                    &&& db.open is None
                    &&& holds_issuing(
                        active,
                        task,
                        before,
                        earliest,
                        response.passkey_id@,
                        db.committed,
                    )
                    &&& tells(active, before, db.committed, task, earliest, told, response)
                },
                (
                    Stage::Completing(response),
                    Action::CompleteSuccess { key: sought, nonce, ciphertext },
                ) => {
                    &&& asked == 1
                    &&& told.vouches(challenge_before(before, task).subject)
                    &&& sought == task.key
                    &&& told.bytes is Some
                    &&& opened_receipt(active.receipt_key, key, nonce@, ciphertext@) == told.bytes
                    &&& db.open == Some(db.committed)
                    &&& holds_issuing(
                        active,
                        task,
                        before,
                        earliest,
                        response.passkey_id@,
                        db.committed,
                    )
                    &&& tells(active, before, db.committed, task, earliest, told, response)
                },
                (Stage::Committing(response), Action::Commit { .. }) => {
                    &&& asked == 1
                    &&& told.vouches(challenge_before(before, task).subject)
                    &&& told.bytes is Some
                    &&& holds_issuing(
                        active,
                        task,
                        before,
                        earliest,
                        response.passkey_id@,
                        db.committed,
                    )
                    &&& db.open matches Some(open)
                    &&& same_commands_but(before, open, key)
                    &&& holds_receipt(open, key, intent, active.receipt_key, told.bytes->0)
                    &&& tells(active, before, open, task, earliest, told, response)
                },
                (Stage::Recording(code), Action::CompleteError { key: sought, code: given }) => {
                    &&& asked <= 1
                    &&& asked == 1 <==> code is Disabled
                    &&& sought == task.key
                    &&& given == code
                    &&& refused_because(active, before, task, earliest, latest, told, code)
                    &&& db.open is None
                    &&& holds_open(db.committed, key, intent)
                    &&& asked == 0 ==> looked_at(before, db.committed, task)
                    &&& asked == 1 ==> {
                        &&& told.vouches(challenge_before(before, task).subject)
                        &&& db.committed.commands[key].status is Issuing
                        &&& is_recorded(active, before, db.committed, task, earliest)
                    }
                },
                _ => false,
            }
        },
        Progress::Encode(run, response) => {
            &&& told.fault is None
            &&& asked == 1
            &&& told.vouches(challenge_before(before, task).subject)
            &&& run == (FinishAuthentication { task, stage: Stage::Encoding(response) })
            &&& !before.commands.dom().contains(key)
            &&& same_commands_but(before, db.committed, key)
            &&& db.open is None
            &&& holds_issuing(
                active,
                task,
                before,
                earliest,
                response.passkey_id@,
                db.committed,
            )
            &&& tells(active, before, db.committed, task, earliest, told, response)
        },
        _ => authentication_outcome(
            active,
            task,
            before,
            db.committed,
            earliest,
            latest,
            told,
            asked,
            progress,
        ),
    }
}

proof fn found_among(rows: Seq<PasskeyRow>, credential_id: Seq<u8>)
    ensures
        match passkey_with(rows, credential_id) {
            Some(row) => exists|i: int|
                0 <= i < rows.len() && #[trigger] rows[i] == row && row.credential_id@
                    == credential_id,
            None => forall|i: int|
                0 <= i < rows.len() ==> (#[trigger] rows[i]).credential_id@ != credential_id,
        },
    decreases rows.len(),
{
    if rows.len() > 0 && rows[0].credential_id@ != credential_id {
        let rest = rows.drop_first();
        found_among(rest, credential_id);
        match passkey_with(rest, credential_id) {
            Some(row) => {
                let i = choose|i: int|
                    0 <= i < rest.len() && #[trigger] rest[i] == row && row.credential_id@
                        == credential_id;
                assert(rows[i + 1] == row);
            },
            None => {
                assert forall|i: int| 0 <= i < rows.len() implies (#[trigger] rows[i]).credential_id@
                    != credential_id by {
                    if i > 0 {
                        assert(rest[i - 1] == rows[i]);
                    }
                }
            },
        }
    } else if rows.len() > 0 {
        assert(rows[0] == passkey_with(rows, credential_id)->0);
    }
}

/// What the locked passkeys show of the one that was used.
proof fn locked_passkeys_show_the_used_one(
    store: Store,
    subject: Seq<char>,
    assertion: AssertionView,
    rows: Seq<PasskeyRow>,
)
    requires
        store.is_kept(),
        store.subjects.dom().contains(subject),
        shows_passkeys(rows, store, subject, false),
    ensures
        match passkey_with(rows, assertion.credential_id) {
            Some(row) => {
                &&& is_usable(store, subject, assertion.credential_id, row.passkey_id@)
                &&& store.passkeys[row.passkey_id@].sign_count == row.sign_count
                &&& store.passkeys[row.passkey_id@].passkey == row.passkey@
                &&& turns_down(store.passkeys[row.passkey_id@], assertion) ==> is_of_no_use(
                    store,
                    subject,
                    assertion,
                )
            },
            None => is_of_no_use(store, subject, assertion),
        },
{
    found_among(rows, assertion.credential_id);
    match passkey_with(rows, assertion.credential_id) {
        Some(row) => {
            let i = choose|i: int|
                0 <= i < rows.len() && #[trigger] rows[i] == row && row.credential_id@
                    == assertion.credential_id;
            assert(store.passkeys.dom().contains(rows[i].passkey_id@));
            assert forall|id: Seq<char>| #[trigger]
                is_usable(store, subject, assertion.credential_id, id) implies id
                == row.passkey_id@ by {
                assert(store.passkeys.dom().contains(id));
                assert(store.passkeys.dom().contains(row.passkey_id@));
            }
        },
        None => {
            assert forall|id: Seq<char>| #[trigger]
                is_usable(store, subject, assertion.credential_id, id) implies false by {
                assert(store.passkeys.dom().contains(id));
                let i = choose|i: int| 0 <= i < rows.len() && (#[trigger] rows[i]).passkey_id@ == id;
                assert(store.passkeys[rows[i].passkey_id@].credential_id == rows[i].credential_id@);
            }
        },
    }
}

proof fn a_step_keeps_holding(
    active: ActiveView,
    task: Task,
    before: Store,
    earliest: int,
    latest: int,
    told: Heard,
    asked: nat,
    progress: Next,
    step: AuthenticationStep,
    db: Database,
    after: Database,
)
    requires
        before.is_kept(),
        earliest <= step.now.unix_nanos <= latest,
        holds(
            active,
            task,
            before,
            earliest,
            latest,
            told,
            asked,
            progress,
            db,
        ),
        waiting(progress) matches Some(run) && advances(
            active,
            run,
            step.reply,
            step.now,
            step.next,
        ),
        step_on(progress, step, db, after),
    ensures
        holds(
            active,
            task,
            before,
            earliest,
            latest,
            told.and(step.reply),
            if asks_session(progress) {
                asked + 1
            } else {
                asked
            },

            step.next,
            after,
        ),
{
    if let Progress::Act(run, action) = progress {
        if let Reply::Command(row) = step.reply {
            if run.stage is Loading {
                claims_read_the_standing(before, task.key@, task.intent@, active.receipt_key, row);
            }
        }
        if run.stage is Recording {
            codes_read_back_as_their_errors();
        }
        if let Stage::Recording(code) = run.stage {
            if asked == 1 {
                let id = choose|id: Seq<char>| #[trigger]
                    recorded(active, before, db.committed, task, earliest, id);
                assert(recorded(active, before, after.committed, task, earliest, id));
            }
            assert(was_refused(
                active,
                task,
                before,
                after.committed,
                earliest,
                latest,
                told.and(step.reply),
                asked,
                code,
            ) || after == db);
        }
        if let Stage::Committing(response) = run.stage {
            assert(has_succeeded(
                active,
                task,
                before,
                after.committed,
                earliest,
                told.and(step.reply),
                asked,
                response,
            ) || after.committed == db.committed);
        }
        if let Stage::Updating { subject, assertion, update } = run.stage {
            if let UpdateStage::Committing { passkey_id, .. } = update {
                assert(recorded(
                    active,
                    before,
                    after.committed,
                    task,
                    earliest,
                    passkey_id@,
                ) || after.committed == db.committed);
            }
            if let Reply::Passkeys(rows) = step.reply {
                if update is LockingPasskeys {
                    assert(shows_passkeys(rows@, before, subject@, false));
                    locked_passkeys_show_the_used_one(before, subject@, assertion@, rows@);
                }
            }
        }
    }
}

proof fn a_run_keeps_holding(
    active: ActiveView,
    task: Task,
    first: Next,
    steps: Seq<AuthenticationStep>,
    databases: Seq<Database>,
    earliest: int,
    latest: int,
    count: int,
)
    requires
        databases[0].committed.is_kept(),
        authentication_run(active, first, steps),
        run_on(first, steps, databases),
        forall|i: int|
            0 <= i < steps.len() ==> earliest <= (#[trigger] steps[i]).now.unix_nanos <= latest,
        holds(
            active,
            task,
            databases[0].committed,
            earliest,
            latest,
            Heard::nothing(),
            0,
            first,
            databases[0],
        ),
        0 <= count <= steps.len(),
    ensures
        holds(
            active,
            task,
            databases[0].committed,
            earliest,
            latest,
            heard(steps.take(count)),
            sessions_asked(first, steps, count),
            after_steps(first, steps, count),
            databases[count],
        ),
    decreases count,
{
    if count > 0 {
        a_run_keeps_holding(active, task, first, steps, databases, earliest, latest, count - 1);
        assert(steps.take(count).drop_last() =~= steps.take(count - 1));
        assert(steps.take(count).last() == steps[count - 1]);
        assert(step_on(
            after_steps(first, steps, count - 1),
            steps[count - 1],
            databases[count - 1],
            databases[count],
        ));
        a_step_keeps_holding(
            active,
            task,
            databases[0].committed,
            earliest,
            latest,
            heard(steps.take(count - 1)),
            sessions_asked(first, steps, count - 1),
            after_steps(first, steps, count - 1),
            steps[count - 1],
            databases[count - 1],
            databases[count],
        );
    }
}

/// An authentication that has the database to itself does what its outcome says. A command is
/// performed once and replayed after. The challenge is consumed whatever comes of the attempt. A
/// success needs an unexpired and unconsumed challenge of the caller, a response verified
/// against it, a subject that the directory calls active, and a passkey of the subject that is
/// not revoked and whose counter moved on. At most one session is asked for, after the passkey,
/// the revision and the command have moved on; and a command that has asked for one is never
/// performed again, however the run ended.
pub proof fn authentications_do_as_they_tell(
    active: ActiveView,
    context: InvocationContext,
    request: FinishAuthenticationRequest,
    request_json: Seq<u8>,
    first: Next,
    steps: Seq<AuthenticationStep>,
    databases: Seq<Database>,
    earliest: int,
    latest: int,
)
    requires
        starts(active, context, request, request_json, first),
        authentication_run(active, first, steps),
        run_on(first, steps, databases),
        databases[0].committed.is_kept(),
        forall|i: int|
            0 <= i < steps.len() ==> earliest <= (#[trigger] steps[i]).now.unix_nanos <= latest,
    ensures
        waiting(first) matches Some(run) ==> run.task.request == request,
        waiting(first) matches Some(run) ==> waiting(
            after_steps(first, steps, steps.len() as int),
        ) is None ==> authentication_outcome(
            active,
            run.task,
            databases[0].committed,
            databases.last().committed,
            earliest,
            latest,
            heard(steps),
            sessions_asked(first, steps, steps.len() as int),
            after_steps(first, steps, steps.len() as int),
        ),
        waiting(first) is None ==> databases.last() == databases[0],
{
    match waiting(first) {
        Some(run) => {
            assert(steps.take(steps.len() as int) =~= steps);
            a_run_keeps_holding(
                active,
                run.task,
                first,
                steps,
                databases,
                earliest,
                latest,
                steps.len() as int,
            );
        },
        None => {
            if steps.len() > 0 {
                assert(waiting(after_steps(first, steps, 0)) is Some) by {
                    let step = steps[0];
                }
            }
        },
    }
}

/// A fresh authentication has one reason to be refused, and none where it succeeds, unless the
/// challenge expires while it runs.
pub proof fn authentications_are_refused_for_one_reason(
    active: ActiveView,
    before: Store,
    after: Store,
    task: Task,
    earliest: int,
    latest: int,
    told: Heard,
    asked: nat,
    code: ReceiptCode,
    other: ReceiptCode,
    response: FinishAuthenticationResponse,
)
    requires
        !(earliest < challenge_before(before, task).expires_at <= latest),
        refused_because(active, before, task, earliest, latest, told, code),
    ensures
        refused_because(active, before, task, earliest, latest, told, other) ==> other == code,
        !has_succeeded(active, task, before, after, earliest, told, asked, response),
{
}

/// A verified assertion of a passkey of the subject that is not revoked, in time and of a subject
/// that is active, is turned down for its counter exactly where both the assertion and the passkey
/// count, and the assertion's counter is not greater. So a passkey of an authenticator that keeps
/// no counter signs in every time.
pub proof fn counters_turn_down_only_what_did_not_move_on(
    active: ActiveView,
    task: Task,
    before: Store,
    after: Store,
    earliest: int,
    latest: int,
    told: Heard,
    asked: nat,
    last: Next,
    assertion: AssertionView,
    id: Seq<char>,
)
    requires
        before.is_kept(),
        authentication_outcome(active, task, before, after, earliest, latest, told, asked, last),
        waiting(last) is None,
        !before.commands.dom().contains(task.key@),
        told.fault is None,
        is_in_time(before, task, earliest),
        latest < challenge_before(before, task).expires_at,
        told.vouches(challenge_before(before, task).subject),
        verification(active, before, task) == Ok::<Option<AssertionView>, Seq<char>>(
            Some(assertion),
        ),
        before.passkeys.dom().contains(id),
        before.passkeys[id].subject == challenge_before(before, task).subject,
        before.passkeys[id].credential_id == assertion.credential_id,
        before.passkeys[id].revoked_at is None,
        renewed(before.passkeys[id].passkey, assertion.result) matches Ok(Some(_)),
    ensures
        last == finished(FinishAuthenticationError::InvalidCredentials) <==> (assertion.counter > 0
            && before.passkeys[id].sign_count > 0 && assertion.counter
            <= before.passkeys[id].sign_count),
        assertion.counter == 0 || before.passkeys[id].sign_count == 0 || assertion.counter
            > before.passkeys[id].sign_count ==> (last is Failed || last == finished(
            FinishAuthenticationError::Disabled,
        ) || last matches Progress::Finished(Ok(_))),
{
    codes_read_back_as_their_errors();
    let subject = challenge_before(before, task).subject;
    assert(is_usable(before, subject, assertion.credential_id, id));
    assert forall|other: Seq<char>| #[trigger]
        is_usable(before, subject, assertion.credential_id, other) implies other == id by {
        assert(before.passkeys.dom().contains(other));
    }
}

/// What a session that is asked for is to be: of the challenge's subject, as a user, by passkey,
/// for the whole configured audience in its order, and until the configured time after the run's
/// clock.
pub open spec fn is_the_session(
    active: ActiveView,
    subject: Seq<char>,
    now: Timestamp,
    session: NewSession,
) -> bool {
    &&& session.subject@ == subject
    &&& session.actor_kind@ == "user"@
    &&& session.assurance@ == "passkey"@
    &&& session.audience.len() == active.config.audience.len()
    &&& forall|i: int|
        0 <= i < active.config.audience.len() ==> (#[trigger] session.audience@[i])@
            == active.config.audience[i]
    &&& rfc3339(now.unix_nanos + active.config.session_ttl_seconds * 1_000_000_000) == Ok::<
        Seq<char>,
        Seq<char>,
    >(session.expires_at@)
}

proof fn a_step_asks_for_the_configured_session(
    active: ActiveView,
    run: FinishAuthentication,
    step: AuthenticationStep,
    next: FinishAuthentication,
    session: NewSession,
)
    requires
        advances(active, run, step.reply, step.now, step.next),
        step.now.reaches(active.config.session_ttl_seconds as int),
        step.next == Progress::Act::<
            FinishAuthentication,
            FinishAuthenticationResponse,
            FinishAuthenticationError,
        >(next, Action::IssueSession(session)),
    ensures
        next.stage matches Stage::Issuing { subject, .. } && is_the_session(
            active,
            subject@,
            step.now,
            session,
        ),
{
    assert(next.stage matches Stage::Issuing { subject, .. } && session.subject == subject);
    assert(texts(session.audience@) == active.config.audience);
    assert forall|i: int| 0 <= i < active.config.audience.len() implies (
    #[trigger] session.audience@[i])@ == active.config.audience[i] by {
        assert(texts(session.audience@)[i] == session.audience@[i]@);
    }
}

proof fn a_session_is_asked_of_the_subject(
    active: ActiveView,
    task: Task,
    before: Store,
    earliest: int,
    latest: int,
    told: Heard,
    asked: nat,
    run: FinishAuthentication,
    session: NewSession,
    db: Database,
)
    requires
        holds(
            active,
            task,
            before,
            earliest,
            latest,
            told,
            asked,
            Progress::Act(run, Action::IssueSession(session)),
            db,
        ),
    ensures
        run.stage matches Stage::Issuing { subject, .. } ==> subject@ == challenge_before(
            before,
            task,
        ).subject,
        before.challenges.dom().contains(task.request.challenge_id@),
{
}

proof fn a_start_holds(
    active: ActiveView,
    context: InvocationContext,
    request: FinishAuthenticationRequest,
    request_json: Seq<u8>,
    first: Next,
    before: Database,
    run: FinishAuthentication,
    earliest: int,
    latest: int,
)
    requires
        starts(active, context, request, request_json, first),
        waiting(first) == Some(run),
        before.open is None,
    ensures
        run.task.request == request,
        run.stage is Reserving,
        first matches Progress::Act(_, action) && action is ReserveCommand,
        holds(
            active,
            run.task,
            before.committed,
            earliest,
            latest,
            Heard::nothing(),
            0,
            first,
            before,
        ),
{
}

/// Every session that an authentication asks for is the one that it is to ask for: of the subject
/// that the challenge was made for, as a user, by passkey, for the whole configured audience, and
/// for the configured time from the moment in which the authentication is recorded.
pub proof fn authentications_ask_for_the_configured_session(
    active: ActiveView,
    context: InvocationContext,
    request: FinishAuthenticationRequest,
    request_json: Seq<u8>,
    first: Next,
    steps: Seq<AuthenticationStep>,
    databases: Seq<Database>,
    count: int,
    run: FinishAuthentication,
    session: NewSession,
)
    requires
        starts(active, context, request, request_json, first),
        authentication_run(active, first, steps),
        run_on(first, steps, databases),
        databases[0].committed.is_kept(),
        forall|i: int|
            0 <= i < steps.len() ==> (#[trigger] steps[i]).now.reaches(
                active.config.session_ttl_seconds as int,
            ),
        0 <= count <= steps.len(),
        after_steps(first, steps, count) == Progress::Act::<
            FinishAuthentication,
            FinishAuthenticationResponse,
            FinishAuthenticationError,
        >(run, Action::IssueSession(session)),
    ensures
        count > 0,
        databases[0].committed.challenges.dom().contains(request.challenge_id@),
        is_the_session(
            active,
            databases[0].committed.challenges[request.challenge_id@].subject,
            steps[count - 1].now,
            session,
        ),
{
    let begun = waiting(first)->0;
    let earliest = i128::MIN as int;
    let latest = i128::MAX as int;
    if count == 0 {
        assert(waiting(first) == Some(run));
    } else {
        let early = steps[0];
        assert(waiting(after_steps(first, steps, 0)) is Some);
    }
    a_start_holds(
        active,
        context,
        request,
        request_json,
        first,
        databases[0],
        begun,
        earliest,
        latest,
    );
    a_run_keeps_holding(active, begun.task, first, steps, databases, earliest, latest, count);
    a_session_is_asked_of_the_subject(
        active,
        begun.task,
        databases[0].committed,
        earliest,
        latest,
        heard(steps.take(count)),
        sessions_asked(first, steps, count),
        run,
        session,
        databases[count],
    );
    let step = steps[count - 1];
    let before = waiting(after_steps(first, steps, count - 1))->0;
    assert(step.next == after_steps(first, steps, count));
    a_step_asks_for_the_configured_session(active, before, step, run, session);
}

} // verus!
