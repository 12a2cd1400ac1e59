//! What beginning an authentication does to the stored state.

use lenso_kernel::InvocationContext;
use vstd::prelude::*;
use webauthn_rs::prelude::Passkey;

use crate::active::ActiveView;
use crate::begin_authentication::{
    advances, failed, refused, starts, BeginAuthentication, Next, Stage, Task,
};
use crate::ceremony::authentication_may_start;
use crate::command::{opened_receipt, ReceiptCode};
use crate::contract::{
    BeginAuthenticationError, BeginAuthenticationRequest, BeginAuthenticationResponse,
};
use crate::failure::{Failure, PasskeyPluginError};
use crate::identifier::is_identifier;
use crate::instant::rfc3339;
use crate::laws::ceremonies::{
    can_be_read, cannot_be_read, passkeys_are_read_one_by_one, reads_as,
};
use crate::laws::history::{
    after_pruning, after_steps, cannot_draw, cannot_seal, cannot_write_later,
    claims_read_the_standing, heard, holds_open, holds_receipt, holds_refusal, left_open, prunes,
    run_on, same_commands_but, same_state, standing, step_on, waiting, Heard, Standing, Step,
};
use crate::laws::replay::codes_read_back_as_their_errors;
use crate::model::{
    actions_keep_the_store, shows_passkeys, ChallengeRecord, Database, Store,
};
use crate::passkeys::decoded;
use crate::rows::PasskeyRow;
use crate::storage::{Action, ChallengeKind, NewChallenge, Progress, Reply};
use crate::text::integer_text;

verus! {

pub type BeginStep = Step<BeginAuthentication, BeginAuthenticationResponse, BeginAuthenticationError>;

/// A run of begin-authentication, step by step.
pub open spec fn begin_run(active: ActiveView, first: Next, steps: Seq<BeginStep>) -> bool {
    forall|i: int|
        0 <= i < steps.len() ==> {
            &&& waiting(after_steps(first, steps, i)) matches Some(run)
            &&& advances(active, run, (#[trigger] steps[i]).reply, steps[i].now, steps[i].next)
        }
}

/// What a started ceremony left: it was over all of the subject's passkeys, of which there are
/// some, each as it is stored; and the state is one that starting it may give with the answered
/// options.
pub open spec fn ceremony_started(
    active: ActiveView,
    base: Store,
    task: Task,
    state: Seq<char>,
    options: Seq<char>,
) -> bool {
    exists|rows: Seq<PasskeyRow>, passkeys: Seq<Passkey>|
        {
            &&& shows_passkeys(rows, base, task.request.subject@, false)
            &&& rows.len() > 0
            &&& can_be_read(rows)
            &&& #[trigger] reads_as(rows, passkeys)
            &&& authentication_may_start(
                active.config.relying_party(),
                passkeys,
                options,
                state,
            )
        }
}

/// What a response says of the challenge that was stored for it.
pub open spec fn describes(
    active: ActiveView,
    base: Store,
    task: Task,
    earliest: int,
    latest: int,
    record: ChallengeRecord,
    response: BeginAuthenticationResponse,
) -> bool {
    let ttl = active.config.challenge_ttl_seconds * 1_000_000_000;
    &&& base.subjects.dom().contains(task.request.subject@)
    &&& record.kind == ChallengeKind::Authentication
    &&& record.caller == task.key.caller@
    &&& record.subject == task.request.subject@
    &&& record.expected_revision == base.subjects[task.request.subject@].revision
    &&& record.options == response.public_key_json@
    &&& record.consumed_at is None
    &&& record.consumed_by is None
    &&& earliest + ttl <= record.expires_at <= latest + ttl
    &&& ceremony_started(
        active,
        base,
        task,
        record.state,
        response.public_key_json@,
    )
    &&& is_identifier("pka_"@, response.challenge_id@)
    &&& rfc3339(record.expires_at) == Ok::<Seq<char>, Seq<char>>(response.expires_at@)
    &&& response.revision@ == integer_text(record.expected_revision)
}

/// What a response says of the stores before and after: a new challenge, and nothing else.
pub open spec fn tells(
    active: ActiveView,
    base: Store,
    after: Store,
    task: Task,
    earliest: int,
    latest: int,
    response: BeginAuthenticationResponse,
) -> bool {
    let id = response.challenge_id@;
    &&& after.subjects == base.subjects
    &&& after.passkeys == base.passkeys
    &&& !base.challenges.dom().contains(id)
    &&& after.challenges.dom().contains(id)
    &&& after.challenges == base.challenges.insert(id, after.challenges[id])
    &&& describes(
        active,
        base,
        task,
        earliest,
        latest,
        after.challenges[id],
        response,
    )
}

/// Why a fresh beginning is refused: the directory does not call the subject active; or it does,
/// but the subject was never seen here or has no passkey that is not revoked.
pub open spec fn is_unknown(base: Store, subject: Seq<char>, told: Heard) -> bool {
    ||| told.denies(subject)
    ||| told.vouches(subject) && (!base.subjects.dom().contains(subject) || forall|id: Seq<char>|
        #[trigger]
        base.passkeys.dom().contains(id) ==> !(base.passkeys[id].subject == subject
            && base.passkeys[id].revoked_at is None))
}

/// Whether a failure is of starting the ceremony over the subject's passkeys, of which there are
/// some, or of answering it: a stored passkey could not be read; no random bytes could be drawn;
/// the challenge's end cannot be written; or the response is too long to seal.
pub open spec fn cannot_challenge(
    active: ActiveView,
    base: Store,
    task: Task,
    earliest: int,
    latest: int,
    told: Heard,
    failure: Failure,
) -> bool {
    exists|rows: Seq<PasskeyRow>|
        {
            &&& #[trigger] shows_passkeys(rows, base, task.request.subject@, false)
            &&& rows.len() > 0
            &&& {
                ||| failure matches Failure::Representation(text) && cannot_be_read(rows, text@)
                ||| can_be_read(rows) && {
                    ||| cannot_draw(failure)
                    ||| cannot_write_later(
                        earliest,
                        latest,
                        active.config.challenge_ttl_seconds as int,
                        failure,
                    )
                    ||| cannot_seal(told, task.key@, failure)
                }
            }
        }
}

/// Why a fresh beginning fails: an action failed; the directory gave no status; or the challenge
/// could not be made.
pub open spec fn fails_because(
    active: ActiveView,
    base: Store,
    task: Task,
    earliest: int,
    latest: int,
    told: Heard,
    failure: Failure,
) -> bool {
    let subject = task.request.subject@;
    match told.fault {
        Some(error) => failure == Failure::Plugin(error),
        None => {
            ||| told.lacks_status(subject, failure)
            ||| {
                &&& told.vouches(subject)
                &&& base.subjects.dom().contains(subject)
                &&& cannot_challenge(active, base, task, earliest, latest, told, failure)
            }
        },
    }
}

/// What a fresh beginning has done that succeeded, whether or not it was told so: the stores differ
/// as its response tells, and the receipt holds the response.
pub open spec fn has_succeeded(
    active: ActiveView,
    task: Task,
    base: Store,
    after: Store,
    earliest: int,
    latest: int,
    told: Heard,
    response: BeginAuthenticationResponse,
) -> bool {
    &&& told.vouches(task.request.subject@)
    &&& told.bytes matches Some(bytes)
    &&& same_commands_but(base, after, task.key@)
    &&& holds_receipt(after, task.key@, task.intent@, active.receipt_key, bytes)
    &&& tells(active, base, after, task, earliest, latest, response)
}

/// What a fresh beginning has done that was refused, whether or not it was told so: its refusal is
/// recorded, and nothing else.
pub open spec fn was_refused(task: Task, base: Store, after: Store, told: Heard) -> bool {
    &&& is_unknown(base, task.request.subject@, told)
    &&& same_state(base, after)
    &&& same_commands_but(base, after, task.key@)
    &&& holds_refusal(
        after,
        task.key@,
        task.intent@,
        ReceiptCode::InvalidCredentials.text(),
    )
}

/// What a fresh beginning has done that is over without an answer: it leaves only its command,
/// open. Where an action failed, that may have been done or not, and with it the success or the
/// refusal.
pub open spec fn was_interrupted(
    active: ActiveView,
    task: Task,
    base: Store,
    after: Store,
    earliest: int,
    latest: int,
    told: Heard,
) -> bool {
    ||| left_open(base, after, task.key@, task.intent@, told) && same_state(base, after)
    ||| told.fault is Some && {
        ||| was_refused(task, base, after, told)
        ||| exists|response: BeginAuthenticationResponse| #[trigger]
            has_succeeded(active, task, base, after, earliest, latest, told, response)
    }
}

/// Whether a command stands so that it cannot be answered: its receipt does not open, or its code
/// is none of this operation.
pub open spec fn is_unanswerable(stands: Standing, last: Next) -> bool {
    match stands {
        Standing::Succeeded(None) => last == failed(
            Failure::Plugin(PasskeyPluginError::ReceiptDecryption),
        ),
        Standing::Refused(code) => last == refused(code),
        _ => false,
    }
}

/// What a run that is over has done, given the store it began with once that was pruned, the
/// earliest and latest times of its steps, and what it was told. A command that was there before
/// is answered as it stands, and nothing is changed. A fresh one is either refused, always for
/// invalid credentials, and then only its refusal is recorded, or it succeeds, and then the stores
/// differ as the response tells and the receipt holds the response. It fails for a reason of its
/// own, and then it leaves only its command, open; unless what failed was done nevertheless.
pub open spec fn begin_outcome(
    active: ActiveView,
    task: Task,
    base: Store,
    after: Store,
    earliest: int,
    latest: int,
    told: Heard,
    last: Next,
) -> bool {
    let key = task.key@;
    let intent = task.intent@;
    &&& last !is Failed ==> told.fault is None
    &&& match (standing(base, key, intent, active.receipt_key), last) {
        (Standing::Fresh, Progress::Finished(Ok(response))) => has_succeeded(
            active,
            task,
            base,
            after,
            earliest,
            latest,
            told,
            response,
        ),
        (Standing::Fresh, Progress::Finished(Err(_))) => {
            &&& was_refused(task, base, after, told)
            &&& last == refused(ReceiptCode::InvalidCredentials.text())
        },
        (Standing::Fresh, Progress::Replay(_)) => false,
        (Standing::Conflict, Progress::Finished(r)) => {
            &&& after == base
            &&& r == Err::<BeginAuthenticationResponse, _>(
                BeginAuthenticationError::IdempotencyConflict,
            )
        },
        (Standing::InProgress, Progress::Finished(r)) => {
            &&& after == base
            &&& r == Err::<BeginAuthenticationResponse, _>(
                BeginAuthenticationError::OperationInProgress,
            )
        },
        (Standing::Refused(code), Progress::Finished(_)) => {
            &&& after == base
            &&& last == refused(code)
        },
        (Standing::Succeeded(Some(stored)), Progress::Replay(replayed)) => {
            &&& after == base
            &&& replayed@ == stored
        },
        (Standing::Fresh, Progress::Failed(failure)) => {
            &&& fails_because(active, base, task, earliest, latest, told, failure)
            &&& was_interrupted(active, task, base, after, earliest, latest, told)
        },
        (stands, Progress::Failed(failure)) => {
            &&& after == base
            &&& match told.fault {
                Some(error) => failure == Failure::Plugin(error),
                None => is_unanswerable(stands, last),
            }
        },
        (_, Progress::Finished(_)) => false,
        (_, Progress::Replay(_)) => false,
        (_, _) => true,
    }
}

/// The record that a new challenge becomes.
spec fn record_of(new: NewChallenge) -> ChallengeRecord {
    ChallengeRecord {
        kind: new.kind,
        caller: new.caller@,
        subject: new.subject@,
        expected_revision: new.expected_revision as int,
        state: new.state@,
        options: new.public_options@,
        expires_at: new.expires_at.unix_nanos as int,
        consumed_at: None,
        consumed_by: None,
    }
}

/// What holds while the run's transaction is open and the challenge is not stored.
spec fn holds_inside(
    active: ActiveView,
    task: Task,
    base: Store,
    earliest: int,
    latest: int,
    told: Heard,
    stage: Stage,
    action: Action,
    open: Store,
) -> bool {
    let subject = task.request.subject@;
    &&& open.challenges == base.challenges
    &&& match (stage, action) {
        (Stage::LockingSubject, Action::LockSubjectOptional { subject: asked }) => {
            &&& asked@ == subject
            &&& same_state(base, open)
        },
        (Stage::LockingPasskeys(row), Action::LockPasskeys { subject: asked }) => {
            &&& asked@ == subject
            &&& same_state(base, open)
            &&& base.subjects.dom().contains(subject)
            &&& row.revision == base.subjects[subject].revision
        },
        (
            Stage::StoringChallenge(response, nonce, ciphertext),
            Action::InsertChallenge(new),
        ) => {
            &&& same_state(base, open)
            &&& new.challenge_id == response.challenge_id
            &&& describes(
                active,
                base,
                task,
                earliest,
                latest,
                record_of(new),
                response,
            )
            &&& told.bytes is Some
            &&& opened_receipt(active.receipt_key, task.key@, nonce@, ciphertext@) == told.bytes
        },
        _ => false,
    }
}

/// What holds of a database while a run on it waits or is over, given the store it began with
/// once that was pruned so far.
spec fn holds(
    active: ActiveView,
    task: Task,
    base: Store,
    earliest: int,
    latest: int,
    told: Heard,
    count: int,
    progress: Next,
    db: Database,
) -> bool {
    let key = task.key@;
    let intent = task.intent@;
    match progress {
        Progress::Act(run, action) => {
            &&& run.task == task
            &&& told.fault is None
            &&& same_commands_but(base, db.committed, key)
            &&& same_state(base, db.committed)
            &&& run.stage is PruningChallenges || run.stage is PruningCommands
                || run.stage is Reserving || run.stage is Loading || !base.commands.dom().contains(
                key,
            )
            &&& run.stage is PruningChallenges || run.stage is PruningCommands || count >= 2
            &&& match (run.stage, action) {
                (Stage::PruningChallenges, Action::PruneChallenges) => {
                    &&& told.directory is None
                    &&& count == 0
                    &&& db == (Database { committed: base, open: None })
                },
                (Stage::PruningCommands, Action::PruneCommands { receipt_ttl_seconds }) => {
                    &&& told.directory is None
                    &&& count == 1
                    &&& receipt_ttl_seconds == active.config.receipt_ttl_seconds
                    &&& db == (Database { committed: base, open: None })
                },
                (Stage::Reserving, Action::ReserveCommand { key: asked, intent: brought }) => {
                    &&& told.directory is None
                    &&& asked == task.key
                    &&& brought == task.intent
                    &&& db == (Database { committed: base, open: None })
                },
                (Stage::Loading, Action::LoadCommand { key: asked }) => {
                    &&& asked == task.key
                    &&& db == (Database { committed: base, open: None })
                    &&& base.commands.dom().contains(key)
                },
                (Stage::ReadingDirectory, Action::ReadDirectory { .. }) => {
                    &&& told.directory is None
                    &&& db.open is None
                    &&& holds_open(db.committed, key, intent)
                },
                (Stage::Beginning, Action::Begin { .. }) => {
                    &&& told.vouches(task.request.subject@)
                    &&& db.open is None
                    &&& holds_open(db.committed, key, intent)
                },
                (Stage::Recording(code), Action::CompleteError { key: asked, code: given }) => {
                    &&& asked == task.key
                    &&& given == code
                    &&& code is InvalidCredentials
                    &&& is_unknown(base, task.request.subject@, told)
                    &&& db.open is None
                    &&& holds_open(db.committed, key, intent)
                },
                (Stage::RollingBack(code), Action::Rollback { .. }) => {
                    &&& code is InvalidCredentials
                    &&& is_unknown(base, task.request.subject@, told)
                    &&& db.open is Some
                    &&& holds_open(db.committed, key, intent)
                },
                (
                    Stage::Completing(response),
                    Action::CompleteSuccess { key: asked, nonce, ciphertext },
                ) => {
                    &&& told.vouches(task.request.subject@)
                    &&& asked == task.key
                    &&& told.bytes is Some
                    &&& opened_receipt(active.receipt_key, key, nonce@, ciphertext@) == told.bytes
                    &&& holds_open(db.committed, key, intent)
                    &&& db.open matches Some(open)
                    &&& same_commands_but(base, open, key)
                    &&& holds_open(open, key, intent)
                    &&& tells(active, base, open, task, earliest, latest, response)
                },
                (Stage::Committing(response), Action::Commit { .. }) => {
                    &&& told.vouches(task.request.subject@)
                    &&& told.bytes is Some
                    &&& holds_open(db.committed, key, intent)
                    &&& db.open matches Some(open)
                    &&& same_commands_but(base, open, key)
                    &&& holds_receipt(open, key, intent, active.receipt_key, told.bytes->0)
                    &&& tells(active, base, open, task, earliest, latest, response)
                },
                (stage, action) => {
                    &&& told.vouches(task.request.subject@)
                    &&& db.open matches Some(open)
                    &&& holds_open(db.committed, key, intent)
                    &&& same_commands_but(base, open, key)
                    &&& holds_open(open, key, intent)
                    &&& holds_inside(
                        active,
                        task,
                        base,
                        earliest,
                        latest,
                        told,
                        stage,
                        action,
                        open,
                    )
                },
            }
        },
        Progress::Encode(run, response) => {
            &&& told.fault is None
            &&& run.task == task
            &&& run.stage matches Stage::Encoding(new, kept)
            &&& kept == response
            &&& count >= 2
            &&& told.vouches(task.request.subject@)
            &&& !base.commands.dom().contains(key)
            &&& same_commands_but(base, db.committed, key)
            &&& same_state(base, db.committed)
            &&& holds_open(db.committed, key, intent)
            &&& db.open matches Some(open)
            &&& same_commands_but(base, open, key)
            &&& holds_open(open, key, intent)
            &&& same_state(base, open)
            &&& new.challenge_id == response.challenge_id
            &&& describes(
                active,
                base,
                task,
                earliest,
                latest,
                record_of(new),
                response,
            )
        },
        _ => {
            &&& progress is Failed || count >= 2
            &&& begin_outcome(
                active,
                task,
                base,
                db.committed,
                earliest,
                latest,
                told,
                progress,
            )
        },
    }
}

proof fn a_step_keeps_holding(
    active: ActiveView,
    task: Task,
    base: Store,
    earliest: int,
    latest: int,
    told: Heard,
    count: int,
    progress: Next,
    step: BeginStep,
    db: Database,
    after: Database,
)
    requires
        base.is_kept(),
        step.now.reaches(active.config.challenge_ttl_seconds as int),
        earliest <= step.now.unix_nanos <= latest,
        holds(
            active,
            task,
            base,
            earliest,
            latest,
            told,
            count,
            progress,
            db,
        ),
        waiting(progress) matches Some(run) && advances(
            active,
            run,
            step.reply,
            step.now,
            step.next,
        ),
        step_on(progress, step, db, after),
        active.config.keeps_limits(),
    ensures
        holds(
            active,
            task,
            if count < 2 {
                after.committed
            } else {
                base
            },
            earliest,
            latest,
            told.and(step.reply),
            count + 1,
            step.next,
            after,
        ),
{
    if let Progress::Act(run, action) = progress {
        if run.stage is Recording {
            codes_read_back_as_their_errors();
            assert(was_refused(
                task,
                base,
                after.committed,
                told.and(step.reply),
            ) || after == db);
        }
        if let Stage::Committing(response) = run.stage {
            assert(has_succeeded(
                active,
                task,
                base,
                after.committed,
                earliest,
                latest,
                told.and(step.reply),
                response,
            ) || after.committed == db.committed);
        }
        if let Reply::Command(row) = step.reply {
            if run.stage is Loading {
                claims_read_the_standing(base, task.key@, task.intent@, active.receipt_key, row);
            }
        }
        if let Stage::LockingPasskeys(subject) = run.stage {
            if let Reply::Passkeys(rows) = step.reply {
                assert(shows_passkeys(rows@, base, task.request.subject@, false));
                passkeys_are_read_one_by_one(rows@);
                assert(can_be_read(rows@) ==> reads_as(rows@, decoded(rows@)));
            }
        }
    }
}

proof fn a_run_keeps_holding(
    active: ActiveView,
    task: Task,
    first: Next,
    steps: Seq<BeginStep>,
    databases: Seq<Database>,
    earliest: int,
    latest: int,
    count: int,
)
    requires
        active.config.keeps_limits(),
        databases[0].committed.is_kept(),
        begin_run(active, first, steps),
        run_on(first, steps, databases),
        forall|i: int|
            0 <= i < steps.len() ==> {
                &&& (#[trigger] steps[i]).now.reaches(
                    active.config.challenge_ttl_seconds as int,
                )
                &&& earliest <= steps[i].now.unix_nanos <= latest
            },
        holds(
            active,
            task,
            databases[0].committed,
            earliest,
            latest,
            Heard::nothing(),
            0,
            first,
            databases[0],
        ),
        0 <= count <= steps.len(),
    ensures
        ({
            let base = after_pruning(databases.take(count + 1));
            &&& base.is_kept()
            &&& prunes(
                databases[0].committed,
                steps.take(count),
                active.config.receipt_ttl_seconds,
                base,
            )
            &&& holds(
                active,
                task,
                base,
                earliest,
                latest,
                heard(steps.take(count)),
                count,
                after_steps(first, steps, count),
                databases[count],
            )
        }),
    decreases count,
{
    let ttl = active.config.receipt_ttl_seconds;
    if count > 0 {
        a_run_keeps_holding(active, task, first, steps, databases, earliest, latest, count - 1);
        let base = after_pruning(databases.take(count));
        let time = steps[count - 1].now.unix_nanos as int;
        assert(steps.take(count).drop_last() =~= steps.take(count - 1));
        assert(steps.take(count).last() == steps[count - 1]);
        assert(step_on(
            after_steps(first, steps, count - 1),
            steps[count - 1],
            databases[count - 1],
            databases[count],
        ));
        if count == 1 {
            actions_keep_the_store(base, Action::PruneChallenges, time, Reply::Done);
        } else if count == 2 {
            let prune = Action::PruneCommands { receipt_ttl_seconds: ttl };
            actions_keep_the_store(base, prune, time, Reply::Done);
        }
        a_step_keeps_holding(
            active,
            task,
            base,
            earliest,
            latest,
            heard(steps.take(count - 1)),
            count - 1,
            after_steps(first, steps, count - 1),
            steps[count - 1],
            databases[count - 1],
            databases[count],
        );
    }
}

/// A beginning that has the database to itself does what its outcome says. Old challenges and
/// receipts are pruned first. A command is performed once and replayed after. A refusal changes
/// no subject, passkey or challenge, and is always for invalid credentials, whether the subject
/// is unknown, not active or without passkeys. A success needs a subject that the directory calls
/// active and that has a passkey which is not revoked; it stores one challenge, unconsumed and
/// with the configured time to live, for this caller and subject. The ceremony's state is stored,
/// and only its options are answered.
pub proof fn beginnings_do_as_they_tell(
    active: ActiveView,
    context: InvocationContext,
    request: BeginAuthenticationRequest,
    request_json: Seq<u8>,
    first: Next,
    steps: Seq<BeginStep>,
    databases: Seq<Database>,
    earliest: int,
    latest: int,
)
    requires
        active.config.keeps_limits(),
        starts(active, context, request, request_json, first),
        begin_run(active, first, steps),
        run_on(first, steps, databases),
        databases[0].committed.is_kept(),
        forall|i: int|
            0 <= i < steps.len() ==> {
                &&& (#[trigger] steps[i]).now.reaches(
                    active.config.challenge_ttl_seconds as int,
                )
                &&& earliest <= steps[i].now.unix_nanos <= latest
            },
    ensures
        waiting(first) matches Some(run) ==> run.task.request == request,
        waiting(first) is Some ==> prunes(
            databases[0].committed,
            steps,
            active.config.receipt_ttl_seconds,
            after_pruning(databases),
        ),
        waiting(first) matches Some(run) ==> waiting(
            after_steps(first, steps, steps.len() as int),
        ) is None ==> begin_outcome(
            active,
            run.task,
            after_pruning(databases),
            databases.last().committed,
            earliest,
            latest,
            heard(steps),
            after_steps(first, steps, steps.len() as int),
        ),
        waiting(first) is None ==> databases.last() == databases[0],
{
    match waiting(first) {
        Some(run) => {
            assert(steps.take(steps.len() as int) =~= steps);
            assert(databases.take(databases.len() as int) =~= databases);
            a_run_keeps_holding(
                active,
                run.task,
                first,
                steps,
                databases,
                earliest,
                latest,
                steps.len() as int,
            );
        },
        None => {
            if steps.len() > 0 {
                assert(waiting(after_steps(first, steps, 0)) is Some) by {
                    let step = steps[0];
                }
            }
        },
    }
}

} // verus!
