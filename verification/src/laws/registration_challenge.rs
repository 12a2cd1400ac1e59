//! What beginning a registration does to the stored state.

use lenso_kernel::InvocationContext;
use vstd::prelude::*;

use crate::active::ActiveView;
use crate::begin_registration::{
    advances, exclusion, failed, refused, starts, BeginRegistration, Next, Stage, Task,
};
use crate::ceremony::registration_may_start;
use crate::command::{opened_receipt, ReceiptCode};
use crate::contract::{
    BeginRegistrationError, BeginRegistrationRequest, BeginRegistrationResponse,
};
use crate::failure::{Failure, PasskeyPluginError};
use crate::identifier::is_identifier;
use crate::instant::{rfc3339, Timestamp};
use crate::laws::ceremonies::{
    can_be_read, cannot_be_read, excludes, passkeys_are_read_one_by_one,
};
use crate::laws::history::{
    after_pruning, after_steps, cannot_draw, cannot_seal, cannot_write_later,
    claims_read_the_standing, heard, holds_open, holds_receipt, holds_refusal, left_open, prunes,
    run_on, same_commands_but, same_state, standing, step_on, waiting, Heard, Standing, Step,
};
use crate::laws::replay::codes_read_back_as_their_errors;
use crate::model::{
    actions_keep_the_store, shows_passkeys, ChallengeRecord, Database, Store, SubjectRecord,
};
use crate::rows::PasskeyRow;
use crate::storage::{Action, ChallengeKind, NewChallenge, Progress, Reply};
use crate::text::integer_text;

verus! {

pub type BeginStep = Step<BeginRegistration, BeginRegistrationResponse, BeginRegistrationError>;

/// A run of begin-registration, step by step.
pub open spec fn begin_run(active: ActiveView, first: Next, steps: Seq<BeginStep>) -> bool {
    forall|i: int|
        0 <= i < steps.len() ==> {
            &&& waiting(after_steps(first, steps, i)) matches Some(run)
            &&& advances(active, run, (#[trigger] steps[i]).reply, steps[i].now, steps[i].next)
        }
}

/// The revision of a subject's credential set; one that was never seen is at zero.
pub open spec fn revision_in(store: Store, subject: Seq<char>) -> int {
    if store.subjects.dom().contains(subject) {
        store.subjects[subject].revision
    } else {
        0
    }
}

/// The store with a subject there: as it was, or new with some user handle.
pub open spec fn subject_ensured(base: Store, after: Store, subject: Seq<char>) -> bool {
    &&& after.passkeys == base.passkeys
    &&& after.subjects.dom().contains(subject)
    &&& if base.subjects.dom().contains(subject) {
        after.subjects == base.subjects
    } else {
        after.subjects == base.subjects.insert(
            subject,
            SubjectRecord { user_id: after.subjects[subject].user_id, revision: 0 },
        )
    }
}

/// What a started ceremony left: the passkeys that it excluded were all of the subject's, fewer
/// than the limit, each by its identifier; and the state is one that starting it for the request's
/// name and display name may give with the answered options.
pub open spec fn ceremony_started(
    active: ActiveView,
    base: Store,
    after: Store,
    task: Task,
    state: Seq<char>,
    options: Seq<char>,
) -> bool {
    exists|rows: Seq<PasskeyRow>, exclude: Option<Seq<Seq<u8>>>|
        {
            &&& shows_passkeys(rows, base, task.request.subject@, false)
            &&& rows.len() < active.config.max_passkeys_per_subject
            &&& can_be_read(rows)
            &&& #[trigger] excludes(rows, exclude)
            &&& registration_may_start(
                active.config.relying_party(),
                after.subjects[task.request.subject@].user_id,
                task.request.user_name@,
                task.request.display_name@,
                exclude,
                options,
                state,
            )
        }
}

/// What a response says of the challenge that was stored for it.
pub open spec fn describes(
    active: ActiveView,
    base: Store,
    after: Store,
    task: Task,
    earliest: int,
    latest: int,
    record: ChallengeRecord,
    response: BeginRegistrationResponse,
) -> bool {
    let ttl = active.config.challenge_ttl_seconds * 1_000_000_000;
    &&& revision_in(base, task.request.subject@) == task.expected_revision
    &&& record.kind == ChallengeKind::Registration
    &&& record.caller == task.key.caller@
    &&& record.subject == task.request.subject@
    &&& record.expected_revision == task.expected_revision
    &&& record.options == response.public_key_json@
    &&& record.consumed_at is None
    &&& record.consumed_by is None
    &&& earliest + ttl <= record.expires_at <= latest + ttl
    &&& ceremony_started(
        active,
        base,
        after,
        task,
        record.state,
        response.public_key_json@,
    )
    &&& is_identifier("pkr_"@, response.challenge_id@)
    &&& rfc3339(record.expires_at) == Ok::<Seq<char>, Seq<char>>(response.expires_at@)
    &&& response.revision@ == integer_text(task.expected_revision as int)
}

/// What a response says of the stores before and after: a new challenge, and nothing else.
pub open spec fn tells(
    active: ActiveView,
    base: Store,
    after: Store,
    task: Task,
    earliest: int,
    latest: int,
    response: BeginRegistrationResponse,
) -> bool {
    let id = response.challenge_id@;
    &&& subject_ensured(base, after, task.request.subject@)
    &&& !base.challenges.dom().contains(id)
    &&& after.challenges.dom().contains(id)
    &&& after.challenges == base.challenges.insert(id, after.challenges[id])
    &&& describes(
        active,
        base,
        after,
        task,
        earliest,
        latest,
        after.challenges[id],
        response,
    )
}

/// Why a fresh beginning is refused. The reasons are tried in turn, and the first that applies is
/// given: the directory does not call the subject active; the subject is not at the expected
/// revision; it has as many passkeys as it may have.
pub open spec fn refused_because(
    active: ActiveView,
    base: Store,
    task: Task,
    told: Heard,
    code: ReceiptCode,
) -> bool {
    let subject = task.request.subject@;
    match code {
        ReceiptCode::Disabled => told.denies(subject),
        ReceiptCode::RevisionConflict => {
            &&& told.vouches(subject)
            &&& revision_in(base, subject) != task.expected_revision
        },
        ReceiptCode::TooManyPasskeys => {
            &&& told.vouches(subject)
            &&& revision_in(base, subject) == task.expected_revision
            &&& exists|rows: Seq<PasskeyRow>| #[trigger]
                shows_passkeys(rows, base, subject, false) && rows.len()
                    >= active.config.max_passkeys_per_subject
        },
        _ => false,
    }
}

/// Whether a failure is of starting the ceremony over the subject's passkeys, which are fewer than
/// the limit, or of answering it: a stored passkey could not be read; no random bytes could be
/// drawn; the challenge's end cannot be written; or the response is too long to seal.
pub open spec fn cannot_challenge(
    active: ActiveView,
    base: Store,
    task: Task,
    earliest: int,
    latest: int,
    told: Heard,
    failure: Failure,
) -> bool {
    exists|rows: Seq<PasskeyRow>|
        {
            &&& #[trigger] shows_passkeys(rows, base, task.request.subject@, false)
            &&& rows.len() < active.config.max_passkeys_per_subject
            &&& {
                ||| failure matches Failure::Representation(text) && cannot_be_read(rows, text@)
                ||| can_be_read(rows) && {
                    ||| cannot_draw(failure)
                    ||| cannot_write_later(
                        earliest,
                        latest,
                        active.config.challenge_ttl_seconds as int,
                        failure,
                    )
                    ||| cannot_seal(told, task.key@, failure)
                }
            }
        }
}

/// Why a fresh beginning fails: an action failed; the directory gave no status; or the challenge
/// could not be made.
pub open spec fn fails_because(
    active: ActiveView,
    base: Store,
    task: Task,
    earliest: int,
    latest: int,
    told: Heard,
    failure: Failure,
) -> bool {
    let subject = task.request.subject@;
    match told.fault {
        Some(error) => failure == Failure::Plugin(error),
        None => {
            ||| told.lacks_status(subject, failure)
            ||| {
                &&& told.vouches(subject)
                &&& revision_in(base, subject) == task.expected_revision
                &&& cannot_challenge(active, base, task, earliest, latest, told, failure)
            }
        },
    }
}

/// What a fresh beginning has done that succeeded, whether or not it was told so: the stores differ
/// as its response tells, and the receipt holds the response.
pub open spec fn has_succeeded(
    active: ActiveView,
    task: Task,
    base: Store,
    after: Store,
    earliest: int,
    latest: int,
    told: Heard,
    response: BeginRegistrationResponse,
) -> bool {
    &&& told.vouches(task.request.subject@)
    &&& told.bytes matches Some(bytes)
    &&& same_commands_but(base, after, task.key@)
    &&& holds_receipt(after, task.key@, task.intent@, active.receipt_key, bytes)
    &&& tells(active, base, after, task, earliest, latest, response)
}

/// What a fresh beginning has done that was refused, whether or not it was told so: its refusal is
/// recorded, and nothing else.
pub open spec fn was_refused(
    active: ActiveView,
    task: Task,
    base: Store,
    after: Store,
    told: Heard,
    code: ReceiptCode,
) -> bool {
    &&& refused_because(active, base, task, told, code)
    &&& same_state(base, after)
    &&& same_commands_but(base, after, task.key@)
    &&& holds_refusal(after, task.key@, task.intent@, code.text())
}

/// What a fresh beginning has done that is over without an answer: it leaves only its command,
/// open. Where an action failed, that may have been done or not, and with it the success or the
/// refusal.
pub open spec fn was_interrupted(
    active: ActiveView,
    task: Task,
    base: Store,
    after: Store,
    earliest: int,
    latest: int,
    told: Heard,
) -> bool {
    ||| left_open(base, after, task.key@, task.intent@, told) && same_state(base, after)
    ||| told.fault is Some && {
        ||| exists|code: ReceiptCode| #[trigger]
            was_refused(active, task, base, after, told, code)
        ||| exists|response: BeginRegistrationResponse| #[trigger]
            has_succeeded(active, task, base, after, earliest, latest, told, response)
    }
}

/// Whether a command stands so that it cannot be answered: its receipt does not open, or its code
/// is none of this operation.
pub open spec fn is_unanswerable(stands: Standing, last: Next) -> bool {
    match stands {
        Standing::Succeeded(None) => last == failed(
            Failure::Plugin(PasskeyPluginError::ReceiptDecryption),
        ),
        Standing::Refused(code) => last == refused(code),
        _ => false,
    }
}

/// What a run that is over has done, given the store it began with once that was pruned, the
/// earliest and latest times of its steps, and what it was told. A command that was there before
/// is answered as it stands, and nothing is changed. A fresh one is either refused, and
/// then only its refusal is recorded, or it succeeds, and then the stores differ as the response
/// tells and the receipt holds the response. It fails for a reason of its own, and then it leaves
/// only its command, open; unless what failed was done nevertheless.
pub open spec fn begin_outcome(
    active: ActiveView,
    task: Task,
    base: Store,
    after: Store,
    earliest: int,
    latest: int,
    told: Heard,
    last: Next,
) -> bool {
    let key = task.key@;
    let intent = task.intent@;
    &&& last !is Failed ==> told.fault is None
    &&& match (standing(base, key, intent, active.receipt_key), last) {
        (Standing::Fresh, Progress::Finished(Ok(response))) => has_succeeded(
            active,
            task,
            base,
            after,
            earliest,
            latest,
            told,
            response,
        ),
        (Standing::Fresh, Progress::Finished(Err(_))) => exists|code: ReceiptCode| #[trigger]
            was_refused(active, task, base, after, told, code) && last == refused(code.text()),
        (Standing::Fresh, Progress::Replay(_)) => false,
        (Standing::Conflict, Progress::Finished(r)) => {
            &&& after == base
            &&& r == Err::<BeginRegistrationResponse, _>(
                BeginRegistrationError::IdempotencyConflict,
            )
        },
        (Standing::InProgress, Progress::Finished(r)) => {
            &&& after == base
            &&& r == Err::<BeginRegistrationResponse, _>(
                BeginRegistrationError::OperationInProgress,
            )
        },
        (Standing::Refused(code), Progress::Finished(_)) => {
            &&& after == base
            &&& last == refused(code)
        },
        (Standing::Succeeded(Some(stored)), Progress::Replay(replayed)) => {
            &&& after == base
            &&& replayed@ == stored
        },
        (Standing::Fresh, Progress::Failed(failure)) => {
            &&& fails_because(active, base, task, earliest, latest, told, failure)
            &&& was_interrupted(active, task, base, after, earliest, latest, told)
        },
        (stands, Progress::Failed(failure)) => {
            &&& after == base
            &&& match told.fault {
                Some(error) => failure == Failure::Plugin(error),
                None => is_unanswerable(stands, last),
            }
        },
        (_, Progress::Finished(_)) => false,
        (_, Progress::Replay(_)) => false,
        (_, _) => true,
    }
}

/// The record that a new challenge becomes.
spec fn record_of(new: NewChallenge) -> ChallengeRecord {
    ChallengeRecord {
        kind: new.kind,
        caller: new.caller@,
        subject: new.subject@,
        expected_revision: new.expected_revision as int,
        state: new.state@,
        options: new.public_options@,
        expires_at: new.expires_at.unix_nanos as int,
        consumed_at: None,
        consumed_by: None,
    }
}

/// What holds while the run's transaction is open and the challenge is not stored.
spec fn holds_inside(
    active: ActiveView,
    task: Task,
    base: Store,
    earliest: int,
    latest: int,
    told: Heard,
    stage: Stage,
    action: Action,
    open: Store,
) -> bool {
    let subject = task.request.subject@;
    &&& open.challenges == base.challenges
    &&& match (stage, action) {
        (Stage::EnsuringSubject, Action::EnsureSubject { subject: asked, .. }) => {
            &&& asked@ == subject
            &&& same_state(base, open)
        },
        (Stage::LockingSubject, Action::LockSubject { subject: asked }) => {
            &&& asked@ == subject
            &&& subject_ensured(base, open, subject)
        },
        (Stage::LockingPasskeys(row), Action::LockPasskeys { subject: asked }) => {
            &&& asked@ == subject
            &&& subject_ensured(base, open, subject)
            &&& row.user_id == open.subjects[subject].user_id
            &&& row.revision == revision_in(base, subject)
            &&& row.revision == task.expected_revision
        },
        (
            Stage::StoringChallenge(response, nonce, ciphertext),
            Action::InsertChallenge(new),
        ) => {
            &&& subject_ensured(base, open, subject)
            &&& new.challenge_id == response.challenge_id
            &&& describes(
                active,
                base,
                open,
                task,
                earliest,
                latest,
                record_of(new),
                response,
            )
            &&& told.bytes is Some
            &&& opened_receipt(active.receipt_key, task.key@, nonce@, ciphertext@) == told.bytes
        },
        _ => false,
    }
}

/// What holds of a database while a run on it waits or is over, given the store it began with
/// once that was pruned so far.
spec fn holds(
    active: ActiveView,
    task: Task,
    base: Store,
    earliest: int,
    latest: int,
    told: Heard,
    count: int,
    progress: Next,
    db: Database,
) -> bool {
    let key = task.key@;
    let intent = task.intent@;
    match progress {
        Progress::Act(run, action) => {
            &&& run.task == task
            &&& told.fault is None
            &&& same_commands_but(base, db.committed, key)
            &&& same_state(base, db.committed)
            &&& run.stage is PruningChallenges || run.stage is PruningCommands
                || run.stage is Reserving || run.stage is Loading || !base.commands.dom().contains(
                key,
            )
            &&& run.stage is PruningChallenges || run.stage is PruningCommands || count >= 2
            &&& match (run.stage, action) {
                (Stage::PruningChallenges, Action::PruneChallenges) => {
                    &&& told.directory is None
                    &&& count == 0
                    &&& db == (Database { committed: base, open: None })
                },
                (Stage::PruningCommands, Action::PruneCommands { receipt_ttl_seconds }) => {
                    &&& told.directory is None
                    &&& count == 1
                    &&& receipt_ttl_seconds == active.config.receipt_ttl_seconds
                    &&& db == (Database { committed: base, open: None })
                },
                (Stage::Reserving, Action::ReserveCommand { key: asked, intent: brought }) => {
                    &&& told.directory is None
                    &&& asked == task.key
                    &&& brought == task.intent
                    &&& db == (Database { committed: base, open: None })
                },
                (Stage::Loading, Action::LoadCommand { key: asked }) => {
                    &&& asked == task.key
                    &&& db == (Database { committed: base, open: None })
                    &&& base.commands.dom().contains(key)
                },
                (Stage::ReadingDirectory, Action::ReadDirectory { .. }) => {
                    &&& told.directory is None
                    &&& db.open is None
                    &&& holds_open(db.committed, key, intent)
                },
                (Stage::Beginning, Action::Begin { .. }) => {
                    &&& told.vouches(task.request.subject@)
                    &&& db.open is None
                    &&& holds_open(db.committed, key, intent)
                },
                (Stage::Recording(code), Action::CompleteError { key: asked, code: given }) => {
                    &&& asked == task.key
                    &&& given == code
                    &&& refused_because(active, base, task, told, code)
                    &&& db.open is None
                    &&& holds_open(db.committed, key, intent)
                },
                (Stage::RollingBack(code), Action::Rollback { .. }) => {
                    &&& refused_because(active, base, task, told, code)
                    &&& db.open is Some
                    &&& holds_open(db.committed, key, intent)
                },
                (
                    Stage::Completing(response),
                    Action::CompleteSuccess { key: asked, nonce, ciphertext },
                ) => {
                    &&& told.vouches(task.request.subject@)
                    &&& asked == task.key
                    &&& told.bytes is Some
                    &&& opened_receipt(active.receipt_key, key, nonce@, ciphertext@) == told.bytes
                    &&& holds_open(db.committed, key, intent)
                    &&& db.open matches Some(open)
                    &&& same_commands_but(base, open, key)
                    &&& holds_open(open, key, intent)
                    &&& tells(active, base, open, task, earliest, latest, response)
                },
                (Stage::Committing(response), Action::Commit { .. }) => {
                    &&& told.vouches(task.request.subject@)
                    &&& told.bytes is Some
                    &&& holds_open(db.committed, key, intent)
                    &&& db.open matches Some(open)
                    &&& same_commands_but(base, open, key)
                    &&& holds_receipt(open, key, intent, active.receipt_key, told.bytes->0)
                    &&& tells(active, base, open, task, earliest, latest, response)
                },
                (stage, action) => {
                    &&& told.vouches(task.request.subject@)
                    &&& db.open matches Some(open)
                    &&& holds_open(db.committed, key, intent)
                    &&& same_commands_but(base, open, key)
                    &&& holds_open(open, key, intent)
                    &&& holds_inside(
                        active,
                        task,
                        base,
                        earliest,
                        latest,
                        told,
                        stage,
                        action,
                        open,
                    )
                },
            }
        },
        Progress::Encode(run, response) => {
            &&& told.fault is None
            &&& run.task == task
            &&& run.stage matches Stage::Encoding(new, kept)
            &&& kept == response
            &&& count >= 2
            &&& told.vouches(task.request.subject@)
            &&& !base.commands.dom().contains(key)
            &&& same_commands_but(base, db.committed, key)
            &&& same_state(base, db.committed)
            &&& holds_open(db.committed, key, intent)
            &&& db.open matches Some(open)
            &&& same_commands_but(base, open, key)
            &&& holds_open(open, key, intent)
            &&& open.challenges == base.challenges
            &&& subject_ensured(base, open, task.request.subject@)
            &&& new.challenge_id == response.challenge_id
            &&& describes(
                active,
                base,
                open,
                task,
                earliest,
                latest,
                record_of(new),
                response,
            )
        },
        _ => {
            &&& progress is Failed || count >= 2
            &&& begin_outcome(
                active,
                task,
                base,
                db.committed,
                earliest,
                latest,
                told,
                progress,
            )
        },
    }
}

proof fn a_step_keeps_holding(
    active: ActiveView,
    task: Task,
    base: Store,
    earliest: int,
    latest: int,
    told: Heard,
    count: int,
    progress: Next,
    step: BeginStep,
    db: Database,
    after: Database,
)
    requires
        base.is_kept(),
        step.now.reaches(active.config.challenge_ttl_seconds as int),
        earliest <= step.now.unix_nanos <= latest,
        holds(
            active,
            task,
            base,
            earliest,
            latest,
            told,
            count,
            progress,
            db,
        ),
        waiting(progress) matches Some(run) && advances(
            active,
            run,
            step.reply,
            step.now,
            step.next,
        ),
        step_on(progress, step, db, after),
        active.config.keeps_limits(),
        task.request.user_name@.len() > 0,
        task.request.display_name@.len() > 0,
    ensures
        holds(
            active,
            task,
            if count < 2 {
                after.committed
            } else {
                base
            },
            earliest,
            latest,
            told.and(step.reply),
            count + 1,
            step.next,
            after,
        ),
{
    if let Progress::Act(run, action) = progress {
        if let Stage::Recording(code) = run.stage {
            codes_read_back_as_their_errors();
            assert(was_refused(
                active,
                task,
                base,
                after.committed,
                told.and(step.reply),
                code,
            ) || after == db);
        }
        if let Stage::Committing(response) = run.stage {
            assert(has_succeeded(
                active,
                task,
                base,
                after.committed,
                earliest,
                latest,
                told.and(step.reply),
                response,
            ) || after.committed == db.committed);
        }
        if let Reply::Command(row) = step.reply {
            if run.stage is Loading {
                claims_read_the_standing(base, task.key@, task.intent@, active.receipt_key, row);
            }
        }
        if let Stage::LockingPasskeys(subject) = run.stage {
            if let Reply::Passkeys(rows) = step.reply {
                assert(shows_passkeys(rows@, base, task.request.subject@, false));
                passkeys_are_read_one_by_one(rows@);
                assert(can_be_read(rows@) ==> excludes(rows@, exclusion(rows@)));
            }
        }
    }
}

proof fn a_run_keeps_holding(
    active: ActiveView,
    task: Task,
    first: Next,
    steps: Seq<BeginStep>,
    databases: Seq<Database>,
    earliest: int,
    latest: int,
    count: int,
)
    requires
        active.config.keeps_limits(),
        task.request.user_name@.len() > 0,
        task.request.display_name@.len() > 0,
        databases[0].committed.is_kept(),
        begin_run(active, first, steps),
        run_on(first, steps, databases),
        forall|i: int|
            0 <= i < steps.len() ==> {
                &&& (#[trigger] steps[i]).now.reaches(
                    active.config.challenge_ttl_seconds as int,
                )
                &&& earliest <= steps[i].now.unix_nanos <= latest
            },
        holds(
            active,
            task,
            databases[0].committed,
            earliest,
            latest,
            Heard::nothing(),
            0,
            first,
            databases[0],
        ),
        0 <= count <= steps.len(),
    ensures
        ({
            let base = after_pruning(databases.take(count + 1));
            &&& base.is_kept()
            &&& prunes(
                databases[0].committed,
                steps.take(count),
                active.config.receipt_ttl_seconds,
                base,
            )
            &&& holds(
                active,
                task,
                base,
                earliest,
                latest,
                heard(steps.take(count)),
                count,
                after_steps(first, steps, count),
                databases[count],
            )
        }),
    decreases count,
{
    let ttl = active.config.receipt_ttl_seconds;
    if count > 0 {
        a_run_keeps_holding(active, task, first, steps, databases, earliest, latest, count - 1);
        let base = after_pruning(databases.take(count));
        let time = steps[count - 1].now.unix_nanos as int;
        assert(steps.take(count).drop_last() =~= steps.take(count - 1));
        assert(steps.take(count).last() == steps[count - 1]);
        assert(step_on(
            after_steps(first, steps, count - 1),
            steps[count - 1],
            databases[count - 1],
            databases[count],
        ));
        if count == 1 {
            actions_keep_the_store(base, Action::PruneChallenges, time, Reply::Done);
        } else if count == 2 {
            let prune = Action::PruneCommands { receipt_ttl_seconds: ttl };
            actions_keep_the_store(base, prune, time, Reply::Done);
        }
        a_step_keeps_holding(
            active,
            task,
            base,
            earliest,
            latest,
            heard(steps.take(count - 1)),
            count - 1,
            after_steps(first, steps, count - 1),
            steps[count - 1],
            databases[count - 1],
            databases[count],
        );
    }
}

/// A beginning that has the database to itself does what its outcome says. Old challenges and
/// receipts are pruned first. A command is performed once and replayed after. A refusal changes
/// no subject, passkey or challenge. A success needs a subject that the directory calls active,
/// that is at the expected revision and that has fewer passkeys than the limit; it stores one
/// challenge, unconsumed and with the configured time to live, for this caller, subject and
/// revision. The ceremony's state is stored, and only its options are answered.
pub proof fn beginnings_do_as_they_tell(
    active: ActiveView,
    context: InvocationContext,
    request: BeginRegistrationRequest,
    request_json: Seq<u8>,
    now: Timestamp,
    first: Next,
    steps: Seq<BeginStep>,
    databases: Seq<Database>,
    earliest: int,
    latest: int,
)
    requires
        active.config.keeps_limits(),
        starts(active, context, request, request_json, now, first),
        begin_run(active, first, steps),
        run_on(first, steps, databases),
        databases[0].committed.is_kept(),
        forall|i: int|
            0 <= i < steps.len() ==> {
                &&& (#[trigger] steps[i]).now.reaches(
                    active.config.challenge_ttl_seconds as int,
                )
                &&& earliest <= steps[i].now.unix_nanos <= latest
            },
    ensures
        waiting(first) matches Some(run) ==> run.task.request == request,
        waiting(first) is Some ==> prunes(
            databases[0].committed,
            steps,
            active.config.receipt_ttl_seconds,
            after_pruning(databases),
        ),
        waiting(first) matches Some(run) ==> waiting(
            after_steps(first, steps, steps.len() as int),
        ) is None ==> begin_outcome(
            active,
            run.task,
            after_pruning(databases),
            databases.last().committed,
            earliest,
            latest,
            heard(steps),
            after_steps(first, steps, steps.len() as int),
        ),
        waiting(first) is None ==> databases.last() == databases[0],
{
    match waiting(first) {
        Some(run) => {
            assert(steps.take(steps.len() as int) =~= steps);
            assert(databases.take(databases.len() as int) =~= databases);
            a_run_keeps_holding(
                active,
                run.task,
                first,
                steps,
                databases,
                earliest,
                latest,
                steps.len() as int,
            );
        },
        None => {
            if steps.len() > 0 {
                assert(waiting(after_steps(first, steps, 0)) is Some) by {
                    let step = steps[0];
                }
            }
        },
    }
}

/// Lists that show the same passkeys are equally long.
proof fn lists_are_equally_long(
    a: Seq<PasskeyRow>,
    b: Seq<PasskeyRow>,
    store: Store,
    subject: Seq<char>,
)
    requires
        shows_passkeys(a, store, subject, false),
        shows_passkeys(b, store, subject, false),
    ensures
        a.len() == b.len(),
{
    let x = a.map_values(|row: PasskeyRow| row.passkey_id@);
    let y = b.map_values(|row: PasskeyRow| row.passkey_id@);
    assert forall|id: Seq<char>| #[trigger] x.contains(id) implies y.contains(id) by {
        let i = choose|i: int| 0 <= i < x.len() && x[i] == id;
        assert(store.passkeys.dom().contains(a[i].passkey_id@));
        let j = choose|j: int| 0 <= j < b.len() && (#[trigger] b[j]).passkey_id@ == id;
        assert(y[j] == id);
    }
    assert forall|id: Seq<char>| #[trigger] y.contains(id) implies x.contains(id) by {
        let i = choose|i: int| 0 <= i < y.len() && y[i] == id;
        assert(store.passkeys.dom().contains(b[i].passkey_id@));
        let j = choose|j: int| 0 <= j < a.len() && (#[trigger] a[j]).passkey_id@ == id;
        assert(x[j] == id);
    }
    assert(x.no_duplicates());
    assert(y.no_duplicates());
    x.unique_seq_to_set();
    y.unique_seq_to_set();
    assert(x.to_set() =~= y.to_set());
}

/// A fresh beginning has one reason to be refused, and none where it succeeds.
pub proof fn beginnings_are_refused_for_one_reason(
    active: ActiveView,
    base: Store,
    after: Store,
    task: Task,
    earliest: int,
    latest: int,
    told: Heard,
    code: ReceiptCode,
    other: ReceiptCode,
    response: BeginRegistrationResponse,
)
    requires
        refused_because(active, base, task, told, code),
    ensures
        refused_because(active, base, task, told, other) ==> other == code,
        !has_succeeded(active, task, base, after, earliest, latest, told, response),
{
    if has_succeeded(active, task, base, after, earliest, latest, told, response)
        && code is TooManyPasskeys {
        let subject = task.request.subject@;
        let limit = active.config.max_passkeys_per_subject;
        let a = choose|rows: Seq<PasskeyRow>| #[trigger]
            shows_passkeys(rows, base, subject, false) && rows.len() >= limit;
        let b = choose|rows: Seq<PasskeyRow>| #[trigger]
            shows_passkeys(rows, base, subject, false) && rows.len() < limit;
        lists_are_equally_long(a, b, base, subject);
    }
}

/// A ceremony is started for the name and the display name that the caller asked for, for the user
/// handle that the subject has, and excludes all passkeys of the subject that are not revoked, one
/// by one; its options are what is answered and its state is what is stored.
pub proof fn beginnings_are_for_the_user_that_was_asked_for(
    active: ActiveView,
    context: InvocationContext,
    request: BeginRegistrationRequest,
    request_json: Seq<u8>,
    now: Timestamp,
    first: Next,
    steps: Seq<BeginStep>,
    databases: Seq<Database>,
    response: BeginRegistrationResponse,
)
    requires
        active.config.keeps_limits(),
        starts(active, context, request, request_json, now, first),
        begin_run(active, first, steps),
        run_on(first, steps, databases),
        databases[0].committed.is_kept(),
        forall|i: int|
            0 <= i < steps.len() ==> (#[trigger] steps[i]).now.reaches(
                active.config.challenge_ttl_seconds as int,
            ),
        steps.len() > 0,
        after_steps(first, steps, steps.len() as int) == Progress::Finished::<
            BeginRegistration,
            BeginRegistrationResponse,
            BeginRegistrationError,
        >(Ok(response)),
    ensures
        ({
            let after = databases.last().committed;
            let challenge = after.challenges[response.challenge_id@];
            &&& after.challenges.dom().contains(response.challenge_id@)
            &&& after.subjects.dom().contains(request.subject@)
            &&& challenge.subject == request.subject@
            &&& exists|rows: Seq<PasskeyRow>, exclude: Option<Seq<Seq<u8>>>|
                {
                    &&& shows_passkeys(rows, after, request.subject@, false)
                    &&& #[trigger] excludes(rows, exclude)
                    &&& registration_may_start(
                        active.config.relying_party(),
                        after.subjects[request.subject@].user_id,
                        request.user_name@,
                        request.display_name@,
                        exclude,
                        response.public_key_json@,
                        challenge.state,
                    )
                }
        }),
{
    let step = steps[0];
    assert(waiting(after_steps(first, steps, 0)) is Some);
    let task = waiting(first)->0.task;
    let base = after_pruning(databases);
    let after = databases.last().committed;
    let earliest = i128::MIN as int;
    let latest = i128::MAX as int;
    beginnings_do_as_they_tell(
        active,
        context,
        request,
        request_json,
        now,
        first,
        steps,
        databases,
        earliest,
        latest,
    );
    assert(has_succeeded(
        active,
        task,
        base,
        after,
        earliest,
        latest,
        heard(steps),
        response,
    ));
    let state = after.challenges[response.challenge_id@].state;
    let (rows, exclude) = choose|rows: Seq<PasskeyRow>, exclude: Option<Seq<Seq<u8>>>|
        {
            &&& shows_passkeys(rows, base, task.request.subject@, false)
            &&& rows.len() < active.config.max_passkeys_per_subject
            &&& can_be_read(rows)
            &&& #[trigger] excludes(rows, exclude)
            &&& registration_may_start(
                active.config.relying_party(),
                after.subjects[task.request.subject@].user_id,
                task.request.user_name@,
                task.request.display_name@,
                exclude,
                response.public_key_json@,
                state,
            )
        };
    assert(excludes(rows, exclude));
    assert(shows_passkeys(rows, after, request.subject@, false));
}

} // verus!
