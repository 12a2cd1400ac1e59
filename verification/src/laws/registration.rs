//! What finishing a registration does to the stored state.

use lenso_kernel::InvocationContext;
use vstd::prelude::*;

use crate::active::ActiveView;
use crate::ceremony::{
    finished_registration, passkey_counter, passkey_credential_id, passkey_text, public_key_text,
    registration_response, registration_state, VerifiedPasskeyView,
};
use crate::challenge::ConsumeStage;
use crate::command::{opened_receipt, CommandStatus, ReceiptCode};
use crate::contract::{
    FinishRegistrationError, FinishRegistrationRequest, FinishRegistrationResponse, Nullable,
};
use crate::failure::{Failure, PasskeyPluginError};
use crate::finish_registration::{
    advances, failed, made_of, refused, starts, FinishRegistration, Next, Stage, Task,
};
use crate::identifier::{is_identifier, url_safe_base64};
use crate::instant::{rfc3339, Timestamp};
use crate::laws::history::{
    after_steps, cannot_draw, cannot_seal, cannot_write, claims_read_the_standing, heard,
    holds_open, holds_receipt, holds_refusal, left_open, run_on, same_commands_but, same_state,
    standing, step_on, waiting, Heard, Standing, Step,
};
use crate::laws::replay::codes_read_back_as_their_errors;
use crate::model::{
    shows_challenge, ChallengeRecord, Database, PasskeyRecord, Store, SubjectRecord,
};
use crate::storage::{Action, ChallengeKind, Progress, Reply};
use crate::text::{integer_text, trimmed};

verus! {

pub type RegistrationStep = Step<
    FinishRegistration,
    FinishRegistrationResponse,
    FinishRegistrationError,
>;

/// A run of finish-registration, step by step.
pub open spec fn registration_run(
    active: ActiveView,
    first: Next,
    steps: Seq<RegistrationStep>,
) -> bool {
    forall|i: int|
        0 <= i < steps.len() ==> {
            &&& waiting(after_steps(first, steps, i)) matches Some(run)
            &&& advances(active, run, (#[trigger] steps[i]).reply, steps[i].now, steps[i].next)
        }
}

/// The challenge that a request names, as it was.
pub open spec fn challenge_before(before: Store, task: Task) -> ChallengeRecord {
    before.challenges[task.request.challenge_id@]
}

/// Whether a request names a registration challenge.
pub open spec fn names_challenge(before: Store, task: Task) -> bool {
    &&& before.challenges.dom().contains(task.request.challenge_id@)
    &&& challenge_before(before, task).kind == ChallengeKind::Registration
}

/// Whether a request names a registration challenge of its caller that was not consumed.
pub open spec fn can_consume(before: Store, task: Task) -> bool {
    &&& names_challenge(before, task)
    &&& challenge_before(before, task).caller == task.key.caller@
    &&& challenge_before(before, task).consumed_at is None
}

/// Whether the named challenge is about the subject and the revision of the request.
pub open spec fn challenge_fits(before: Store, task: Task) -> bool {
    &&& challenge_before(before, task).subject == task.request.subject@
    &&& challenge_before(before, task).expected_revision == task.expected_revision
}

/// The challenges with the named one consumed, by this command.
pub open spec fn challenge_consumed(before: Store, after: Store, task: Task) -> bool {
    let id = task.request.challenge_id@;
    &&& after.challenges.dom().contains(id)
    &&& after.challenges[id].consumed_at is Some
    &&& after.challenges == before.challenges.insert(
        id,
        ChallengeRecord {
            consumed_at: after.challenges[id].consumed_at,
            consumed_by: Some((task.key.operation@, task.key.idempotency_key@)),
            ..challenge_before(before, task)
        },
    )
}

/// The named challenge was looked at: it is consumed if it could be, and nothing else changed.
pub open spec fn looked_at(before: Store, after: Store, task: Task) -> bool {
    &&& after.subjects == before.subjects
    &&& after.passkeys == before.passkeys
    &&& if can_consume(before, task) {
        challenge_consumed(before, after, task)
    } else {
        after.challenges == before.challenges
    }
}

/// What the response proves against the ceremony of the named challenge, if both are well formed
/// and it proves something: the passkey's text, identifier, key and counter; otherwise nothing, or
/// why the ceremony could not be read or the passkey not be written.
pub open spec fn verification(active: ActiveView, before: Store, task: Task) -> Result<
    Option<VerifiedPasskeyView>,
    Seq<char>,
> {
    match registration_state(challenge_before(before, task).state) {
        Err(error) => Err(error),
        Ok(state) => match registration_response(task.request.credential_json@) {
            None => Ok(None),
            Some(response) => match finished_registration(
                active.config.relying_party(),
                response,
                state,
            ) {
                None => Ok(None),
                Some(passkey) => match public_key_text(passkey) {
                    Err(error) => Err(error),
                    Ok(public_key) => match passkey_text(passkey) {
                        Err(error) => Err(error),
                        Ok(text) => Ok(
                            Some(
                                VerifiedPasskeyView {
                                    passkey: text,
                                    credential_id: passkey_credential_id(passkey),
                                    public_key,
                                    counter: passkey_counter(passkey),
                                },
                            ),
                        ),
                    },
                },
            },
        },
    }
}

/// The passkeys with the verified one added.
pub open spec fn passkey_added(
    active: ActiveView,
    before: Store,
    after: Store,
    task: Task,
    passkey_id: Seq<char>,
) -> bool {
    let verified = verification(active, before, task)->Ok_0->0;
    &&& !before.has_credential(verified.credential_id)
    &&& !before.passkeys.dom().contains(passkey_id)
    &&& after.passkeys.dom().contains(passkey_id)
    &&& after.passkeys == before.passkeys.insert(
        passkey_id,
        PasskeyRecord {
            subject: task.request.subject@,
            credential_id: verified.credential_id,
            public_key: verified.public_key,
            passkey: verified.passkey,
            label: trimmed(task.request.label@),
            sign_count: verified.counter as int,
            revision: 1,
            created_at: after.passkeys[passkey_id].created_at,
            last_used_at: None,
            revoked_at: None,
        },
    )
}

/// Whether the named challenge is of use to a run that is not over before a time.
pub open spec fn is_in_time(before: Store, task: Task, earliest: int) -> bool {
    &&& can_consume(before, task)
    &&& challenge_fits(before, task)
    &&& earliest < challenge_before(before, task).expires_at
}

/// What a fresh registration has behind it when its transaction opens: the challenge was the
/// caller's own, fitting, unexpired and unconsumed, and is consumed now; and the response was
/// verified against it.
pub open spec fn earned(
    active: ActiveView,
    before: Store,
    after: Store,
    task: Task,
    earliest: int,
) -> bool {
    &&& is_in_time(before, task, earliest)
    &&& challenge_consumed(before, after, task)
    &&& verification(active, before, task) matches Ok(Some(_))
}

/// What a response says of the stores before and after: the subject was at the expected revision,
/// which advanced by one, and the verified passkey joined its credential set.
pub open spec fn tells(
    active: ActiveView,
    before: Store,
    after: Store,
    task: Task,
    earliest: int,
    response: FinishRegistrationResponse,
) -> bool {
    let subject = task.request.subject@;
    let id = response.passkey.passkey_id@;
    &&& earned(active, before, after, task, earliest)
    &&& before.subjects.dom().contains(subject)
    &&& before.subjects[subject].revision == task.expected_revision
    &&& after.subjects == before.subjects.insert(
        subject,
        SubjectRecord { revision: task.expected_revision + 1, ..before.subjects[subject] },
    )
    &&& passkey_added(active, before, after, task, id)
    &&& is_identifier("pk_"@, id)
    &&& response.passkey.label@ == after.passkeys[id].label
    &&& response.passkey.credential_id@ == url_safe_base64(after.passkeys[id].credential_id)
    &&& response.passkey.sign_count@ == integer_text(after.passkeys[id].sign_count)
    &&& response.passkey.revision@ == integer_text(after.passkeys[id].revision)
    &&& rfc3339(after.passkeys[id].created_at) == Ok::<Seq<char>, Seq<char>>(
        response.passkey.created_at@,
    )
    &&& response.passkey.last_used_at == Nullable::<String>(None)
    &&& response.passkey.revoked_at == Nullable::<String>(None)
    &&& response.revision@ == integer_text(after.subjects[subject].revision)
}

/// Why a fresh registration is refused. The reasons are tried in turn, and the first that applies
/// is given: the challenge is not the caller's or not of this request, was used, has expired; the
/// directory does not call the subject active; the response does not verify; the credential set
/// has moved on; the credential is there.
pub open spec fn refused_because(
    active: ActiveView,
    before: Store,
    task: Task,
    earliest: int,
    latest: int,
    told: Heard,
    code: ReceiptCode,
) -> bool {
    let subject = task.request.subject@;
    match code {
        ReceiptCode::InvalidRequest => {
            ||| !names_challenge(before, task)
            ||| challenge_before(before, task).caller != task.key.caller@
            ||| !challenge_fits(before, task)
        },
        ReceiptCode::ChallengeUsed => {
            &&& names_challenge(before, task)
            &&& challenge_before(before, task).caller == task.key.caller@
            &&& challenge_fits(before, task)
            &&& challenge_before(before, task).consumed_at is Some
        },
        ReceiptCode::ChallengeExpired => {
            &&& can_consume(before, task)
            &&& challenge_fits(before, task)
            &&& latest >= challenge_before(before, task).expires_at
        },
        ReceiptCode::Disabled => {
            &&& is_in_time(before, task, earliest)
            &&& told.denies(subject)
        },
        ReceiptCode::InvalidCredential => {
            &&& is_in_time(before, task, earliest)
            &&& told.vouches(subject)
            &&& verification(active, before, task) matches Ok(None)
        },
        ReceiptCode::RevisionConflict => {
            &&& is_in_time(before, task, earliest)
            &&& told.vouches(subject)
            &&& verification(active, before, task) matches Ok(Some(_))
            &&& before.subjects.dom().contains(subject)
            &&& before.subjects[subject].revision != task.expected_revision
        },
        ReceiptCode::CredentialExists => {
            &&& is_in_time(before, task, earliest)
            &&& told.vouches(subject)
            &&& verification(active, before, task) matches Ok(Some(verified))
            &&& before.subjects.dom().contains(subject)
            &&& before.subjects[subject].revision == task.expected_revision
            &&& before.has_credential(verified.credential_id)
        },
        _ => false,
    }
}

/// Why a fresh registration fails: an action failed; the directory gave no status; the stored
/// ceremony could not be read; no random bytes could be drawn; the passkey's time cannot be
/// written; or the response is too long to seal.
pub open spec fn fails_because(
    active: ActiveView,
    before: Store,
    task: Task,
    earliest: int,
    latest: int,
    told: Heard,
    failure: Failure,
) -> bool {
    let subject = task.request.subject@;
    match told.fault {
        Some(error) => failure == Failure::Plugin(error),
        None => {
            &&& is_in_time(before, task, earliest)
            &&& told.lacks_status(subject, failure) || told.vouches(subject) && match verification(
                active,
                before,
                task,
            ) {
                Err(error) => failure matches Failure::Representation(text) && text@ == error,
                Ok(None) => false,
                Ok(Some(_)) => {
                    ||| cannot_draw(failure)
                    ||| cannot_write(earliest, latest, failure)
                    ||| cannot_seal(told, task.key@, failure)
                },
            }
        },
    }
}

/// What a fresh registration has done that succeeded, whether or not it was told so: the stores
/// differ as its response tells, and the receipt holds the response.
pub open spec fn has_succeeded(
    active: ActiveView,
    task: Task,
    before: Store,
    after: Store,
    earliest: int,
    told: Heard,
    response: FinishRegistrationResponse,
) -> bool {
    &&& told.vouches(task.request.subject@)
    &&& told.bytes matches Some(bytes)
    &&& same_commands_but(before, after, task.key@)
    &&& holds_receipt(after, task.key@, task.intent@, active.receipt_key, bytes)
    &&& tells(active, before, after, task, earliest, response)
}

/// What a fresh registration has done that was refused, whether or not it was told so: the
/// challenge is consumed if it could be, and the refusal is recorded.
pub open spec fn was_refused(
    active: ActiveView,
    task: Task,
    before: Store,
    after: Store,
    earliest: int,
    latest: int,
    told: Heard,
    code: ReceiptCode,
) -> bool {
    &&& refused_because(active, before, task, earliest, latest, told, code)
    &&& looked_at(before, after, task)
    &&& same_commands_but(before, after, task.key@)
    &&& holds_refusal(after, task.key@, task.intent@, code.text())
}

/// What a fresh registration has done that is over without an answer: its command is left open,
/// and nothing else has changed but the challenge. Where an action failed, that may have been done
/// or not, and with it the success or the refusal.
pub open spec fn was_interrupted(
    active: ActiveView,
    task: Task,
    before: Store,
    after: Store,
    earliest: int,
    latest: int,
    told: Heard,
) -> bool {
    ||| left_open(before, after, task.key@, task.intent@, told) && looked_at(before, after, task)
    ||| told.fault is Some && {
        ||| left_open(before, after, task.key@, task.intent@, told) && same_state(before, after)
        ||| exists|code: ReceiptCode| #[trigger]
            was_refused(active, task, before, after, earliest, latest, told, code)
        ||| exists|response: FinishRegistrationResponse| #[trigger]
            has_succeeded(active, task, before, after, earliest, told, response)
    }
}

/// Whether a command stands so that it cannot be answered: its receipt does not open, or its code
/// is none of this operation.
pub open spec fn is_unanswerable(stands: Standing, last: Next) -> bool {
    match stands {
        Standing::Succeeded(None) => last == failed(
            Failure::Plugin(PasskeyPluginError::ReceiptDecryption),
        ),
        Standing::Refused(code) => last == refused(code),
        _ => false,
    }
}

/// What a run that is over has done, given the store it began with, the earliest and latest times
/// of its steps, and what it was told. A command that was there before is answered as it stands,
/// and nothing is changed. A fresh one consumes the challenge it names, if that is its caller's to
/// consume, whatever comes of it; it is either refused, and then its refusal is recorded and no
/// credential set changes, or it succeeds, and then the stores differ as the response tells and the
/// receipt holds the response. It fails for a reason of its own, and then its command is left open
/// and no credential set changes; unless what failed was done nevertheless.
pub open spec fn registration_outcome(
    active: ActiveView,
    task: Task,
    before: Store,
    after: Store,
    earliest: int,
    latest: int,
    told: Heard,
    last: Next,
) -> bool {
    let key = task.key@;
    let intent = task.intent@;
    &&& last !is Failed ==> told.fault is None
    &&& match (standing(before, key, intent, active.receipt_key), last) {
        (Standing::Fresh, Progress::Finished(Ok(response))) => has_succeeded(
            active,
            task,
            before,
            after,
            earliest,
            told,
            response,
        ),
        (Standing::Fresh, Progress::Finished(Err(_))) => exists|code: ReceiptCode| #[trigger]
            was_refused(active, task, before, after, earliest, latest, told, code) && last
                == refused(code.text()),
        (Standing::Fresh, Progress::Replay(_)) => false,
        (Standing::Conflict, Progress::Finished(r)) => {
            &&& after == before
            &&& r == Err::<FinishRegistrationResponse, _>(
                FinishRegistrationError::IdempotencyConflict,
            )
        },
        (Standing::InProgress, Progress::Finished(r)) => {
            &&& after == before
            &&& r == Err::<FinishRegistrationResponse, _>(
                FinishRegistrationError::OperationInProgress,
            )
        },
        (Standing::Refused(code), Progress::Finished(_)) => {
            &&& after == before
            &&& last == refused(code)
        },
        (Standing::Succeeded(Some(stored)), Progress::Replay(replayed)) => {
            &&& after == before
            &&& replayed@ == stored
        },
        (Standing::Fresh, Progress::Failed(failure)) => {
            &&& fails_because(active, before, task, earliest, latest, told, failure)
            &&& was_interrupted(active, task, before, after, earliest, latest, told)
        },
        (stands, Progress::Failed(failure)) => {
            &&& after == before
            &&& match told.fault {
                Some(error) => failure == Failure::Plugin(error),
                None => is_unanswerable(stands, last),
            }
        },
        (_, Progress::Finished(_)) => false,
        (_, Progress::Replay(_)) => false,
        (_, _) => true,
    }
}

/// What holds while the challenge is being consumed.
spec fn holds_consuming(
    task: Task,
    before: Store,
    stage: ConsumeStage,
    action: Action,
    db: Database,
) -> bool {
    let id = task.request.challenge_id@;
    &&& same_state(before, db.committed)
    &&& holds_open(db.committed, task.key@, task.intent@)
    &&& match (stage, action) {
        (ConsumeStage::Beginning, Action::Begin { .. }) => db.open is None,
        (ConsumeStage::Locking, Action::LockChallenge { challenge_id, kind }) => {
            &&& challenge_id@ == id
            &&& kind == ChallengeKind::Registration
            &&& db.open == Some(db.committed)
        },
        (ConsumeStage::Missing, Action::Commit { .. }) => {
            &&& db.open == Some(db.committed)
            &&& !names_challenge(before, task)
        },
        (ConsumeStage::Spent(row), Action::Commit { .. }) => {
            &&& db.open == Some(db.committed)
            &&& names_challenge(before, task)
            &&& !can_consume(before, task)
            &&& shows_challenge(row, challenge_before(before, task))
        },
        (
            ConsumeStage::Consuming(row),
            Action::ConsumeChallenge { challenge_id, operation, idempotency_key },
        ) => {
            &&& challenge_id@ == id
            &&& operation@ == task.key.operation@
            &&& idempotency_key@ == task.key.idempotency_key@
            &&& db.open == Some(db.committed)
            &&& can_consume(before, task)
            &&& shows_challenge(row, challenge_before(before, task))
        },
        (ConsumeStage::Consumed(row), Action::Commit { .. }) => {
            &&& db.open matches Some(open)
            &&& open.commands == db.committed.commands
            &&& looked_at(before, open, task)
            &&& can_consume(before, task)
            &&& shows_challenge(row, challenge_before(before, task))
        },
        _ => false,
    }
}

/// What holds while the run's transaction is open.
spec fn holds_inside(
    active: ActiveView,
    task: Task,
    before: Store,
    earliest: int,
    latest: int,
    stage: Stage,
    action: Action,
    open: Store,
) -> bool {
    let subject = task.request.subject@;
    let verified = verification(active, before, task)->Ok_0->0;
    &&& earned(active, before, open, task, earliest)
    &&& match (stage, action) {
        (Stage::LockingSubject(new, draft), Action::LockSubject { subject: asked }) => {
            &&& asked@ == subject
            &&& looked_at(before, open, task)
            &&& made_of(task, verified, new, draft)
            &&& is_identifier("pk_"@, draft.passkey_id@)
        },
        (Stage::Inserting(draft), Action::InsertPasskey(new)) => {
            &&& looked_at(before, open, task)
            &&& before.subjects.dom().contains(subject)
            &&& before.subjects[subject].revision == task.expected_revision
            &&& made_of(task, verified, new, draft)
            &&& is_identifier("pk_"@, draft.passkey_id@)
        },
        (
            Stage::AdvancingSubject(draft, inserted),
            Action::AdvanceSubject { subject: asked, .. },
        ) => {
            &&& asked@ == subject
            &&& open.subjects == before.subjects
            &&& before.subjects.dom().contains(subject)
            &&& before.subjects[subject].revision == task.expected_revision
            &&& passkey_added(active, before, open, task, draft.passkey_id@)
            &&& is_identifier("pk_"@, draft.passkey_id@)
            &&& draft.label@ == trimmed(task.request.label@)
            &&& draft.credential_id@ == url_safe_base64(verified.credential_id)
            &&& draft.counter == verified.counter
            &&& inserted.revision == 1
            &&& inserted.created_at.unix_nanos == open.passkeys[draft.passkey_id@].created_at
            &&& earliest <= inserted.created_at.unix_nanos <= latest
        },
        _ => false,
    }
}

/// What holds of a database while a run on it waits or is over, given the store it began with.
spec fn holds(
    active: ActiveView,
    task: Task,
    before: Store,
    earliest: int,
    latest: int,
    told: Heard,
    progress: Next,
    db: Database,
) -> bool {
    let key = task.key@;
    let intent = task.intent@;
    match progress {
        Progress::Act(run, action) => {
            &&& run.task == task
            &&& told.fault is None
            &&& same_commands_but(before, db.committed, key)
            &&& run.stage is Reserving || run.stage is Loading || !before.commands.dom().contains(
                key,
            )
            &&& match (run.stage, action) {
                (Stage::Reserving, Action::ReserveCommand { key: asked, intent: brought }) => {
                    &&& told.directory is None
                    &&& asked == task.key
                    &&& brought == task.intent
                    &&& db == (Database { committed: before, open: None })
                },
                (Stage::Loading, Action::LoadCommand { key: asked }) => {
                    &&& asked == task.key
                    &&& db == (Database { committed: before, open: None })
                    &&& before.commands.dom().contains(key)
                },
                (Stage::Verifying, Action::SetCommandStatus { key: asked, from, to }) => {
                    &&& told.directory is None
                    &&& asked == task.key
                    &&& from == CommandStatus::Reserved
                    &&& to == CommandStatus::Verifying
                    &&& db.open is None
                    &&& same_state(before, db.committed)
                    &&& holds_open(db.committed, key, intent)
                    &&& db.committed.commands[key].status == CommandStatus::Reserved
                },
                (Stage::Consuming(stage), action) => {
                    &&& told.directory is None
                    &&& holds_consuming(task, before, stage, action, db)
                },
                (Stage::ReadingDirectory(row), Action::ReadDirectory { .. }) => {
                    &&& told.directory is None
                    &&& db.open is None
                    &&& holds_open(db.committed, key, intent)
                    &&& is_in_time(before, task, earliest)
                    &&& looked_at(before, db.committed, task)
                    &&& shows_challenge(row, challenge_before(before, task))
                },
                (Stage::Beginning(new, draft), Action::Begin { .. }) => {
                    &&& told.vouches(task.request.subject@)
                    &&& db.open is None
                    &&& holds_open(db.committed, key, intent)
                    &&& looked_at(before, db.committed, task)
                    &&& earned(active, before, db.committed, task, earliest)
                    &&& made_of(
                        task,
                        verification(active, before, task)->Ok_0->0,
                        new,
                        draft,
                    )
                    &&& is_identifier("pk_"@, draft.passkey_id@)
                },
                (Stage::Recording(code), Action::CompleteError { key: asked, code: given }) => {
                    &&& asked == task.key
                    &&& given == code
                    &&& refused_because(active, before, task, earliest, latest, told, code)
                    &&& db.open is None
                    &&& looked_at(before, db.committed, task)
                    &&& holds_open(db.committed, key, intent)
                },
                (Stage::RollingBack(code), Action::Rollback { .. }) => {
                    &&& refused_because(active, before, task, earliest, latest, told, code)
                    &&& db.open is Some
                    &&& looked_at(before, db.committed, task)
                    &&& holds_open(db.committed, key, intent)
                },
                (
                    Stage::Completing(response),
                    Action::CompleteSuccess { key: asked, nonce, ciphertext },
                ) => {
                    &&& told.vouches(task.request.subject@)
                    &&& asked == task.key
                    &&& told.bytes is Some
                    &&& opened_receipt(active.receipt_key, key, nonce@, ciphertext@) == told.bytes
                    &&& holds_open(db.committed, key, intent)
                    &&& looked_at(before, db.committed, task)
                    &&& db.open matches Some(open)
                    &&& same_commands_but(before, open, key)
                    &&& holds_open(open, key, intent)
                    &&& tells(active, before, open, task, earliest, response)
                },
                (Stage::Committing(response), Action::Commit { .. }) => {
                    &&& told.vouches(task.request.subject@)
                    &&& told.bytes is Some
                    &&& holds_open(db.committed, key, intent)
                    &&& looked_at(before, db.committed, task)
                    &&& db.open matches Some(open)
                    &&& same_commands_but(before, open, key)
                    &&& holds_receipt(open, key, intent, active.receipt_key, told.bytes->0)
                    &&& tells(active, before, open, task, earliest, response)
                },
                (stage, action) => {
                    &&& told.vouches(task.request.subject@)
                    &&& db.open matches Some(open)
                    &&& holds_open(db.committed, key, intent)
                    &&& looked_at(before, db.committed, task)
                    &&& same_commands_but(before, open, key)
                    &&& holds_open(open, key, intent)
                    &&& holds_inside(active, task, before, earliest, latest, stage, action, open)
                },
            }
        },
        Progress::Encode(run, response) => {
            &&& told.fault is None
            &&& run == (FinishRegistration { task, stage: Stage::Encoding(response) })
            &&& told.vouches(task.request.subject@)
            &&& !before.commands.dom().contains(key)
            &&& same_commands_but(before, db.committed, key)
            &&& holds_open(db.committed, key, intent)
            &&& looked_at(before, db.committed, task)
            &&& db.open matches Some(open)
            &&& same_commands_but(before, open, key)
            &&& holds_open(open, key, intent)
            &&& tells(active, before, open, task, earliest, response)
        },
        _ => registration_outcome(
            active,
            task,
            before,
            db.committed,
            earliest,
            latest,
            told,
            progress,
        ),
    }
}

proof fn a_step_keeps_holding(
    active: ActiveView,
    task: Task,
    before: Store,
    earliest: int,
    latest: int,
    told: Heard,
    progress: Next,
    step: RegistrationStep,
    db: Database,
    after: Database,
)
    requires
        before.is_kept(),
        earliest <= step.now.unix_nanos <= latest,
        holds(active, task, before, earliest, latest, told, progress, db),
        waiting(progress) matches Some(run) && advances(
            active,
            run,
            step.reply,
            step.now,
            step.next,
        ),
        step_on(progress, step, db, after),
    ensures
        holds(
            active,
            task,
            before,
            earliest,
            latest,
            told.and(step.reply),
            step.next,
            after,
        ),
{
    if let Progress::Act(run, Action::CompleteError { .. }) = progress {
        codes_read_back_as_their_errors();
    }
    if let Progress::Act(run, _) = progress {
        if let Stage::Recording(code) = run.stage {
            assert(was_refused(
                active,
                task,
                before,
                after.committed,
                earliest,
                latest,
                told.and(step.reply),
                code,
            ) || after == db);
        }
        if let Stage::Committing(response) = run.stage {
            assert(has_succeeded(
                active,
                task,
                before,
                after.committed,
                earliest,
                told.and(step.reply),
                response,
            ) || after.committed == db.committed);
        }
    }
    if let Progress::Act(run, Action::LoadCommand { .. }) = progress {
        if let Reply::Command(row) = step.reply {
            claims_read_the_standing(before, task.key@, task.intent@, active.receipt_key, row);
        }
    }
}

proof fn a_run_keeps_holding(
    active: ActiveView,
    task: Task,
    first: Next,
    steps: Seq<RegistrationStep>,
    databases: Seq<Database>,
    earliest: int,
    latest: int,
    count: int,
)
    requires
        databases[0].committed.is_kept(),
        registration_run(active, first, steps),
        run_on(first, steps, databases),
        forall|i: int|
            0 <= i < steps.len() ==> earliest <= (#[trigger] steps[i]).now.unix_nanos <= latest,
        holds(
            active,
            task,
            databases[0].committed,
            earliest,
            latest,
            Heard::nothing(),
            first,
            databases[0],
        ),
        0 <= count <= steps.len(),
    ensures
        holds(
            active,
            task,
            databases[0].committed,
            earliest,
            latest,
            heard(steps.take(count)),
            after_steps(first, steps, count),
            databases[count],
        ),
    decreases count,
{
    if count > 0 {
        a_run_keeps_holding(active, task, first, steps, databases, earliest, latest, count - 1);
        assert(steps.take(count).drop_last() =~= steps.take(count - 1));
        assert(steps.take(count).last() == steps[count - 1]);
        assert(step_on(
            after_steps(first, steps, count - 1),
            steps[count - 1],
            databases[count - 1],
            databases[count],
        ));
        a_step_keeps_holding(
            active,
            task,
            databases[0].committed,
            earliest,
            latest,
            heard(steps.take(count - 1)),
            after_steps(first, steps, count - 1),
            steps[count - 1],
            databases[count - 1],
            databases[count],
        );
    }
}

/// A registration that has the database to itself does what its outcome says. A command is
/// performed once and replayed after. The challenge is consumed whatever comes of the attempt. A
/// refusal leaves the credential set as it was. A success needs a fitting, unexpired and
/// unconsumed challenge of the caller, a response verified against it, a subject that the
/// directory calls active and that is at the expected revision, and a credential that is new;
/// it adds the one passkey and advances the revision by one.
pub proof fn registrations_do_as_they_tell(
    active: ActiveView,
    context: InvocationContext,
    request: FinishRegistrationRequest,
    request_json: Seq<u8>,
    now: Timestamp,
    first: Next,
    steps: Seq<RegistrationStep>,
    databases: Seq<Database>,
    earliest: int,
    latest: int,
)
    requires
        starts(active, context, request, request_json, now, first),
        registration_run(active, first, steps),
        run_on(first, steps, databases),
        databases[0].committed.is_kept(),
        forall|i: int|
            0 <= i < steps.len() ==> earliest <= (#[trigger] steps[i]).now.unix_nanos <= latest,
    ensures
        waiting(first) matches Some(run) ==> run.task.request == request,
        waiting(first) matches Some(run) ==> waiting(
            after_steps(first, steps, steps.len() as int),
        ) is None ==> registration_outcome(
            active,
            run.task,
            databases[0].committed,
            databases.last().committed,
            earliest,
            latest,
            heard(steps),
            after_steps(first, steps, steps.len() as int),
        ),
        waiting(first) is None ==> databases.last() == databases[0],
{
    match waiting(first) {
        Some(run) => {
            assert(steps.take(steps.len() as int) =~= steps);
            a_run_keeps_holding(
                active,
                run.task,
                first,
                steps,
                databases,
                earliest,
                latest,
                steps.len() as int,
            );
        },
        None => {
            if steps.len() > 0 {
                assert(waiting(after_steps(first, steps, 0)) is Some) by {
                    let step = steps[0];
                }
            }
        },
    }
}

/// A fresh registration has one reason to be refused, and none where it succeeds, unless the
/// challenge expires while it runs.
pub proof fn registrations_are_refused_for_one_reason(
    active: ActiveView,
    before: Store,
    after: Store,
    task: Task,
    earliest: int,
    latest: int,
    told: Heard,
    code: ReceiptCode,
    other: ReceiptCode,
    response: FinishRegistrationResponse,
)
    requires
        !(earliest < challenge_before(before, task).expires_at <= latest),
        refused_because(active, before, task, earliest, latest, told, code),
    ensures
        refused_because(active, before, task, earliest, latest, told, other) ==> other == code,
        !has_succeeded(active, task, before, after, earliest, told, response),
{
}

} // verus!
