//! What a revocation does to the stored state.

use lenso_kernel::InvocationContext;
use vstd::prelude::*;

use crate::active::ActiveView;
use crate::command::{opened_receipt, ReceiptCode};
use crate::contract::{RevokePasskeyError, RevokePasskeyRequest, RevokePasskeyResponse};
use crate::failure::{Failure, PasskeyPluginError};
use crate::instant::Timestamp;
use crate::laws::history::{
    after_steps, cannot_draw, cannot_seal, claims_read_the_standing, heard, holds_open,
    holds_receipt, holds_refusal, left_open, run_on, same_commands_but, same_state, standing,
    step_on, waiting, Heard, Standing, Step,
};
use crate::laws::replay::codes_read_back_as_their_errors;
use crate::model::{Database, PasskeyRecord, Store, SubjectRecord};
use crate::revoke_passkey::{advances, failed, refused, starts, Next, RevokePasskey, Stage, Task};
use crate::storage::{Action, Progress, Reply};
use crate::text::integer_text;

verus! {

pub type RevocationStep = Step<RevokePasskey, RevokePasskeyResponse, RevokePasskeyError>;

/// A run of revoke-passkey, step by step.
pub open spec fn revocation_run(
    active: ActiveView,
    first: Next,
    steps: Seq<RevocationStep>,
) -> bool {
    forall|i: int|
        0 <= i < steps.len() ==> {
            &&& waiting(after_steps(first, steps, i)) matches Some(run)
            &&& advances(active, run, (#[trigger] steps[i]).reply, steps[i].next)
        }
}

/// The store with one passkey of a subject revoked.
pub open spec fn passkey_revoked(
    before: Store,
    after: Store,
    subject: Seq<char>,
    passkey_id: Seq<char>,
) -> bool {
    &&& before.passkeys.dom().contains(passkey_id)
    &&& before.passkeys[passkey_id].subject == subject
    &&& before.passkeys[passkey_id].revoked_at is None
    &&& after.challenges == before.challenges
    &&& after.passkeys.dom().contains(passkey_id)
    &&& after.passkeys[passkey_id].revoked_at is Some
    &&& after.passkeys == before.passkeys.insert(
        passkey_id,
        PasskeyRecord {
            revision: before.passkeys[passkey_id].revision + 1,
            revoked_at: after.passkeys[passkey_id].revoked_at,
            ..before.passkeys[passkey_id]
        },
    )
}

/// The store with one passkey of a subject revoked, and the subject's revision advanced by one.
pub open spec fn revoked_state(
    before: Store,
    after: Store,
    subject: Seq<char>,
    passkey_id: Seq<char>,
) -> bool {
    &&& passkey_revoked(before, after, subject, passkey_id)
    &&& after.subjects == before.subjects.insert(
        subject,
        SubjectRecord {
            revision: before.subjects[subject].revision + 1,
            ..before.subjects[subject]
        },
    )
}

/// What a response says of the stores before and after: the subject was at the expected
/// revision; the passkey was revoked by this run, or had been revoked before and nothing changed.
pub open spec fn tells(
    before: Store,
    after: Store,
    request: RevokePasskeyRequest,
    expected_revision: i64,
    response: RevokePasskeyResponse,
) -> bool {
    let subject = request.subject@;
    let id = request.passkey_id@;
    &&& before.subjects.dom().contains(subject)
    &&& before.subjects[subject].revision == expected_revision
    &&& response.passkey_id == request.passkey_id
    &&& after.subjects.dom().contains(subject)
    &&& after.passkeys.dom().contains(id)
    &&& response.revision@ == integer_text(after.subjects[subject].revision)
    &&& response.passkey_revision@ == integer_text(after.passkeys[id].revision)
    &&& if response.revoked {
        revoked_state(before, after, subject, id)
    } else {
        &&& same_state(before, after)
        &&& before.passkeys[id].subject == subject
        &&& before.passkeys[id].revoked_at is Some
    }
}

/// Whether a subject is at the expected revision and has the named passkey.
pub open spec fn can_revoke(before: Store, task: Task) -> bool {
    let subject = task.request.subject@;
    let id = task.request.passkey_id@;
    &&& before.subjects.dom().contains(subject)
    &&& before.subjects[subject].revision == task.expected_revision
    &&& before.passkeys.dom().contains(id)
    &&& before.passkeys[id].subject == subject
}

/// Why a fresh revocation is refused. The reasons are tried in turn, and the first that applies is
/// given: the directory does not call the subject active; the subject was never seen here; it is
/// not at the expected revision; it has no such passkey.
pub open spec fn refused_because(
    before: Store,
    task: Task,
    told: Heard,
    code: ReceiptCode,
) -> bool {
    let subject = task.request.subject@;
    match code {
        ReceiptCode::Disabled => told.denies(subject),
        ReceiptCode::RevisionConflict => {
            &&& told.vouches(subject)
            &&& before.subjects.dom().contains(subject)
            &&& before.subjects[subject].revision != task.expected_revision
        },
        ReceiptCode::PasskeyNotFound => {
            &&& told.vouches(subject)
            &&& before.subjects.dom().contains(subject) ==> before.subjects[subject].revision
                == task.expected_revision
            &&& !can_revoke(before, task)
        },
        _ => false,
    }
}

/// Why a fresh revocation fails: an action failed; the directory gave no status; no random bytes
/// could be drawn; or the response is too long to seal.
pub open spec fn fails_because(before: Store, task: Task, told: Heard, failure: Failure) -> bool {
    let subject = task.request.subject@;
    match told.fault {
        Some(error) => failure == Failure::Plugin(error),
        None => {
            ||| told.lacks_status(subject, failure)
            ||| {
                &&& told.vouches(subject)
                &&& can_revoke(before, task)
                &&& cannot_draw(failure) || cannot_seal(told, task.key@, failure)
            }
        },
    }
}

/// What a fresh revocation has done that succeeded, whether or not it was told so: the stores
/// differ as its response tells, and the receipt holds the response.
pub open spec fn has_succeeded(
    active: ActiveView,
    task: Task,
    before: Store,
    after: Store,
    told: Heard,
    response: RevokePasskeyResponse,
) -> bool {
    &&& told.vouches(task.request.subject@)
    &&& told.bytes matches Some(bytes)
    &&& same_commands_but(before, after, task.key@)
    &&& holds_receipt(after, task.key@, task.intent@, active.receipt_key, bytes)
    &&& tells(before, after, task.request, task.expected_revision, response)
}

/// What a fresh revocation has done that was refused, whether or not it was told so: its refusal is
/// recorded, and nothing else.
pub open spec fn was_refused(
    task: Task,
    before: Store,
    after: Store,
    told: Heard,
    code: ReceiptCode,
) -> bool {
    &&& refused_because(before, task, told, code)
    &&& same_state(before, after)
    &&& same_commands_but(before, after, task.key@)
    &&& holds_refusal(after, task.key@, task.intent@, code.text())
}

/// What a fresh revocation has done that is over without an answer: it leaves only its command,
/// open. Where an action failed, that may have been done or not, and with it the success or the
/// refusal.
pub open spec fn was_interrupted(
    active: ActiveView,
    task: Task,
    before: Store,
    after: Store,
    told: Heard,
) -> bool {
    ||| left_open(before, after, task.key@, task.intent@, told) && same_state(before, after)
    ||| told.fault is Some && {
        ||| exists|code: ReceiptCode| #[trigger] was_refused(task, before, after, told, code)
        ||| exists|response: RevokePasskeyResponse| #[trigger]
            has_succeeded(active, task, before, after, told, response)
    }
}

/// Whether a command stands so that it cannot be answered: its receipt does not open, or its code
/// is none of this operation.
pub open spec fn is_unanswerable(stands: Standing, last: Next) -> bool {
    match stands {
        Standing::Succeeded(None) => last == failed(
            Failure::Plugin(PasskeyPluginError::ReceiptDecryption),
        ),
        Standing::Refused(code) => last == refused(code),
        _ => false,
    }
}

/// What a run that is over has done, given the store it began with and what it was told. A command
/// that was there before is answered as it stands, and nothing is changed. A fresh one is either
/// refused, and then only its refusal is recorded, or it succeeds, and then the stores differ as
/// the response tells and the receipt holds the response. It fails for a reason of its own, and
/// then it leaves only its command, open; unless what failed was done nevertheless.
pub open spec fn revocation_outcome(
    active: ActiveView,
    task: Task,
    before: Store,
    after: Store,
    told: Heard,
    last: Next,
) -> bool {
    let key = task.key@;
    let intent = task.intent@;
    &&& last !is Failed ==> told.fault is None
    &&& match (standing(before, key, intent, active.receipt_key), last) {
        (Standing::Fresh, Progress::Finished(Ok(response))) => has_succeeded(
            active,
            task,
            before,
            after,
            told,
            response,
        ),
        (Standing::Fresh, Progress::Finished(Err(_))) => exists|code: ReceiptCode| #[trigger]
            was_refused(task, before, after, told, code) && last == refused(code.text()),
        (Standing::Fresh, Progress::Replay(_)) => false,
        (Standing::Conflict, Progress::Finished(r)) => {
            &&& after == before
            &&& r == Err::<RevokePasskeyResponse, _>(RevokePasskeyError::IdempotencyConflict)
        },
        (Standing::InProgress, Progress::Finished(r)) => {
            &&& after == before
            &&& r == Err::<RevokePasskeyResponse, _>(RevokePasskeyError::OperationInProgress)
        },
        (Standing::Refused(code), Progress::Finished(_)) => {
            &&& after == before
            &&& last == refused(code)
        },
        (Standing::Succeeded(Some(stored)), Progress::Replay(replayed)) => {
            &&& after == before
            &&& replayed@ == stored
        },
        (Standing::Fresh, Progress::Failed(failure)) => {
            &&& fails_because(before, task, told, failure)
            &&& was_interrupted(active, task, before, after, told)
        },
        (stands, Progress::Failed(failure)) => {
            &&& after == before
            &&& match told.fault {
                Some(error) => failure == Failure::Plugin(error),
                None => is_unanswerable(stands, last),
            }
        },
        (_, Progress::Finished(_)) => false,
        (_, Progress::Replay(_)) => false,
        (_, _) => true,
    }
}

/// What holds while the run's transaction is open.
spec fn holds_inside(task: Task, before: Store, stage: Stage, action: Action, open: Store) -> bool {
    let subject = task.request.subject@;
    let id = task.request.passkey_id@;
    match (stage, action) {
        (Stage::LockingSubject, Action::LockSubjectOptional { subject: asked }) => {
            &&& asked@ == subject
            &&& same_state(before, open)
        },
        (Stage::LockingPasskey(row), Action::LockPasskey { passkey_id, subject: asked }) => {
            &&& asked@ == subject
            &&& passkey_id@ == id
            &&& same_state(before, open)
            &&& before.subjects.dom().contains(subject)
            &&& before.subjects[subject].revision == row.revision
            &&& row.revision == task.expected_revision
        },
        (Stage::Revoking, Action::RevokePasskey { passkey_id }) => {
            &&& passkey_id@ == id
            &&& same_state(before, open)
            &&& before.subjects.dom().contains(subject)
            &&& before.subjects[subject].revision == task.expected_revision
            &&& before.passkeys.dom().contains(id)
            &&& before.passkeys[id].subject == subject
            &&& before.passkeys[id].revoked_at is None
        },
        (Stage::AdvancingSubject { passkey_revision }, Action::AdvanceSubject { subject: asked, .. }) => {
            &&& asked@ == subject
            &&& open.subjects == before.subjects
            &&& before.subjects.dom().contains(subject)
            &&& before.subjects[subject].revision == task.expected_revision
            &&& passkey_revoked(before, open, subject, id)
            &&& passkey_revision == open.passkeys[id].revision
        },
        _ => false,
    }
}

/// What holds of a database while a run on it waits or is over, given the store it began with
/// and what it was told.
spec fn holds(
    active: ActiveView,
    task: Task,
    before: Store,
    told: Heard,
    progress: Next,
    db: Database,
) -> bool {
    let key = task.key@;
    let intent = task.intent@;
    match progress {
        Progress::Act(run, action) => {
            &&& run.task == task
            &&& told.fault is None
            &&& same_state(before, db.committed)
            &&& same_commands_but(before, db.committed, key)
            &&& run.stage is Reserving || run.stage is Loading || !before.commands.dom().contains(
                key,
            )
            &&& match (run.stage, action) {
                (Stage::Reserving, Action::ReserveCommand { key: asked, intent: brought }) => {
                    &&& told.directory is None
                    &&& asked == task.key
                    &&& brought == task.intent
                    &&& db == (Database { committed: before, open: None })
                },
                (Stage::Loading, Action::LoadCommand { key: asked }) => {
                    &&& asked == task.key
                    &&& db == (Database { committed: before, open: None })
                    &&& before.commands.dom().contains(key)
                },
                (Stage::ReadingDirectory, Action::ReadDirectory { .. }) => {
                    &&& told.directory is None
                    &&& db.open is None
                    &&& holds_open(db.committed, key, intent)
                },
                (Stage::Beginning, Action::Begin { .. }) => {
                    &&& told.vouches(task.request.subject@)
                    &&& db.open is None
                    &&& holds_open(db.committed, key, intent)
                },
                (Stage::Recording(code), Action::CompleteError { key: asked, code: given }) => {
                    &&& asked == task.key
                    &&& given == code
                    &&& refused_because(before, task, told, code)
                    &&& db.open is None
                    &&& holds_open(db.committed, key, intent)
                },
                (Stage::RollingBack(code), Action::Rollback { .. }) => {
                    &&& refused_because(before, task, told, code)
                    &&& db.open is Some
                    &&& holds_open(db.committed, key, intent)
                },
                (
                    Stage::Completing(response),
                    Action::CompleteSuccess { key: asked, nonce, ciphertext },
                ) => {
                    &&& told.vouches(task.request.subject@)
                    &&& asked == task.key
                    &&& told.bytes is Some
                    &&& opened_receipt(active.receipt_key, key, nonce@, ciphertext@) == told.bytes
                    &&& holds_open(db.committed, key, intent)
                    &&& db.open matches Some(open)
                    &&& same_commands_but(before, open, key)
                    &&& holds_open(open, key, intent)
                    &&& tells(before, open, task.request, task.expected_revision, response)
                },
                (Stage::Committing(response), Action::Commit { .. }) => {
                    &&& told.vouches(task.request.subject@)
                    &&& told.bytes is Some
                    &&& holds_open(db.committed, key, intent)
                    &&& db.open matches Some(open)
                    &&& same_commands_but(before, open, key)
                    &&& holds_receipt(open, key, intent, active.receipt_key, told.bytes->0)
                    &&& tells(before, open, task.request, task.expected_revision, response)
                },
                (stage, action) => {
                    &&& told.vouches(task.request.subject@)
                    &&& db.open matches Some(open)
                    &&& holds_open(db.committed, key, intent)
                    &&& same_commands_but(before, open, key)
                    &&& holds_open(open, key, intent)
                    &&& holds_inside(task, before, stage, action, open)
                },
            }
        },
        Progress::Encode(run, response) => {
            &&& told.fault is None
            &&& run == (RevokePasskey { task, stage: Stage::Encoding(response) })
            &&& told.vouches(task.request.subject@)
            &&& !before.commands.dom().contains(key)
            &&& same_state(before, db.committed)
            &&& same_commands_but(before, db.committed, key)
            &&& holds_open(db.committed, key, intent)
            &&& db.open matches Some(open)
            &&& same_commands_but(before, open, key)
            &&& holds_open(open, key, intent)
            &&& tells(before, open, task.request, task.expected_revision, response)
        },
        _ => revocation_outcome(
            active,
            task,
            before,
            db.committed,
            told,
            progress,
        ),
    }
}

proof fn a_step_keeps_holding(
    active: ActiveView,
    task: Task,
    before: Store,
    told: Heard,
    progress: Next,
    step: RevocationStep,
    db: Database,
    after: Database,
)
    requires
        before.is_kept(),
        holds(active, task, before, told, progress, db),
        waiting(progress) matches Some(run) && advances(active, run, step.reply, step.next),
        step_on(progress, step, db, after),
    ensures
        holds(
            active,
            task,
            before,
            told.and(step.reply),
            step.next,
            after,
        ),
{
    if let Progress::Act(run, Action::CompleteError { .. }) = progress {
        codes_read_back_as_their_errors();
    }
    if let Progress::Act(run, _) = progress {
        if let Stage::Recording(code) = run.stage {
            assert(was_refused(task, before, after.committed, told.and(step.reply), code) || after
                == db);
        }
        if let Stage::Committing(response) = run.stage {
            assert(has_succeeded(
                active,
                task,
                before,
                after.committed,
                told.and(step.reply),
                response,
            ) || after.committed == db.committed);
        }
    }
    if let Progress::Act(run, Action::LoadCommand { .. }) = progress {
        if let Reply::Command(row) = step.reply {
            claims_read_the_standing(before, task.key@, task.intent@, active.receipt_key, row);
        }
    }
}

proof fn a_run_keeps_holding(
    active: ActiveView,
    task: Task,
    first: Next,
    steps: Seq<RevocationStep>,
    databases: Seq<Database>,
    count: int,
)
    requires
        databases[0].committed.is_kept(),
        revocation_run(active, first, steps),
        run_on(first, steps, databases),
        holds(active, task, databases[0].committed, Heard::nothing(), first, databases[0]),
        0 <= count <= steps.len(),
    ensures
        holds(
            active,
            task,
            databases[0].committed,
            heard(steps.take(count)),
            after_steps(first, steps, count),
            databases[count],
        ),
    decreases count,
{
    if count > 0 {
        a_run_keeps_holding(active, task, first, steps, databases, count - 1);
        assert(steps.take(count).drop_last() =~= steps.take(count - 1));
        assert(steps.take(count).last() == steps[count - 1]);
        assert(step_on(
            after_steps(first, steps, count - 1),
            steps[count - 1],
            databases[count - 1],
            databases[count],
        ));
        a_step_keeps_holding(
            active,
            task,
            databases[0].committed,
            heard(steps.take(count - 1)),
            after_steps(first, steps, count - 1),
            steps[count - 1],
            databases[count - 1],
            databases[count],
        );
    }
}

/// A revocation that has the database to itself does what its outcome says: a command is
/// performed once and replayed after, a refusal leaves the credential set as it was, and a
/// success, which needs a subject that the directory calls active, revokes the one passkey and
/// advances the expected revision by one, or finds the passkey revoked before and changes
/// nothing.
pub proof fn revocations_do_as_they_tell(
    active: ActiveView,
    context: InvocationContext,
    request: RevokePasskeyRequest,
    request_json: Seq<u8>,
    now: Timestamp,
    first: Next,
    steps: Seq<RevocationStep>,
    databases: Seq<Database>,
)
    requires
        starts(active, context, request, request_json, now, first),
        revocation_run(active, first, steps),
        run_on(first, steps, databases),
        databases[0].committed.is_kept(),
    ensures
        waiting(first) matches Some(run) ==> run.task.request == request,
        waiting(first) matches Some(run) ==> waiting(
            after_steps(first, steps, steps.len() as int),
        ) is None ==> revocation_outcome(
            active,
            run.task,
            databases[0].committed,
            databases.last().committed,
            heard(steps),
            after_steps(first, steps, steps.len() as int),
        ),
        waiting(first) is None ==> databases.last() == databases[0],
{
    match waiting(first) {
        Some(run) => {
            assert(steps.take(steps.len() as int) =~= steps);
            a_run_keeps_holding(active, run.task, first, steps, databases, steps.len() as int);
        },
        None => {
            if steps.len() > 0 {
                assert(waiting(after_steps(first, steps, 0)) is Some) by {
                    let step = steps[0];
                }
            }
        },
    }
}

/// A fresh revocation has one reason to be refused, and none where it succeeds.
pub proof fn revocations_are_refused_for_one_reason(
    active: ActiveView,
    before: Store,
    after: Store,
    task: Task,
    told: Heard,
    code: ReceiptCode,
    other: ReceiptCode,
    response: RevokePasskeyResponse,
)
    requires
        refused_because(before, task, told, code),
    ensures
        refused_because(before, task, told, other) ==> other == code,
        !has_succeeded(active, task, before, after, told, response),
{
}

} // verus!
