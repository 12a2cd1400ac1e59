//! What a listing tells of the stored state.

use lenso_kernel::InvocationContext;
use vstd::prelude::*;

use crate::active::ActiveView;
use crate::contract::{
    ListPasskeysError, ListPasskeysRequest, ListPasskeysResponse, PasskeySummary,
};
use crate::failure::Failure;
use crate::identifier::url_safe_base64;
use crate::instant::{rfc3339, Timestamp};
use crate::laws::history::{after_steps, heard, run_on, step_on, waiting, Heard, Step};
use crate::list_passkeys::{advances, lists, starts, ListPasskeys, Next, Stage};
use crate::model::{shows_passkeys, Database, PasskeyRecord, Store};
use crate::origin::optional;
use crate::passkeys::summarizes;
use crate::rows::PasskeyRow;
use crate::storage::{Action, Progress, Reply};
use crate::text::integer_text;

verus! {

pub type ListingStep = Step<ListPasskeys, ListPasskeysResponse, ListPasskeysError>;

/// A run of list-passkeys, step by step.
pub open spec fn listing_run(first: Next, steps: Seq<ListingStep>) -> bool {
    forall|i: int|
        0 <= i < steps.len() ==> {
            &&& waiting(after_steps(first, steps, i)) matches Some(run)
            &&& advances(run, (#[trigger] steps[i]).reply, steps[i].next)
        }
}

/// The text of a stored instant that may be absent.
pub open spec fn written(time: Option<int>) -> Result<Option<Seq<char>>, Seq<char>> {
    match time {
        None => Ok(None),
        Some(time) => match rfc3339(time) {
            Ok(text) => Ok(Some(text)),
            Err(error) => Err(error),
        },
    }
}

/// What is told of a stored passkey.
pub open spec fn describes(record: PasskeyRecord, summary: PasskeySummary) -> bool {
    &&& summary.label@ == record.label
    &&& summary.credential_id@ == url_safe_base64(record.credential_id)
    &&& summary.sign_count@ == integer_text(record.sign_count)
    &&& summary.revision@ == integer_text(record.revision)
    &&& rfc3339(record.created_at) == Ok::<Seq<char>, Seq<char>>(summary.created_at@)
    &&& written(record.last_used_at) == Ok::<Option<Seq<char>>, Seq<char>>(
        optional(summary.last_used_at.0),
    )
    &&& written(record.revoked_at) == Ok::<Option<Seq<char>>, Seq<char>>(
        optional(summary.revoked_at.0),
    )
}

/// Whether a stored passkey is one that a request asks for.
pub open spec fn is_sought(record: PasskeyRecord, request: ListPasskeysRequest) -> bool {
    record.subject == request.subject@ && (request.include_revoked || record.revoked_at is None)
}

/// What a response says of the store: the revision of the subject's credential set, and each
/// passkey that was asked for, once, as it is stored, and oldest first. A subject that was never
/// seen is at zero and has none.
pub open spec fn tells(
    store: Store,
    request: ListPasskeysRequest,
    response: ListPasskeysResponse,
) -> bool {
    let passkeys = response.passkeys@;
    &&& response.revision@ == integer_text(
        if store.subjects.dom().contains(request.subject@) {
            store.subjects[request.subject@].revision
        } else {
            0
        },
    )
    &&& forall|i: int|
        0 <= i < passkeys.len() ==> {
            let id = (#[trigger] passkeys[i]).passkey_id@;
            &&& store.passkeys.dom().contains(id)
            &&& is_sought(store.passkeys[id], request)
            &&& describes(store.passkeys[id], passkeys[i])
        }
    &&& forall|i: int, j: int|
        0 <= i < j < passkeys.len() ==> {
            let a = (#[trigger] passkeys[i]).passkey_id@;
            let b = (#[trigger] passkeys[j]).passkey_id@;
            &&& a != b
            &&& store.passkeys[a].created_at <= store.passkeys[b].created_at
        }
    &&& forall|id: Seq<char>| #[trigger]
        store.passkeys.dom().contains(id) && is_sought(store.passkeys[id], request)
            ==> exists|i: int| 0 <= i < passkeys.len() && (#[trigger] passkeys[i]).passkey_id@ == id
}

/// Whether a failure is of writing a time of a passkey that was asked for.
pub open spec fn cannot_tell(store: Store, request: ListPasskeysRequest, failure: Failure) -> bool {
    &&& failure matches Failure::Timestamp(error)
    &&& exists|id: Seq<char>|
        {
            &&& #[trigger] store.passkeys.dom().contains(id)
            &&& is_sought(store.passkeys[id], request)
            &&& {
                ||| rfc3339(store.passkeys[id].created_at) == Err::<Seq<char>, Seq<char>>(error@)
                ||| written(store.passkeys[id].last_used_at) == Err::<
                    Option<Seq<char>>,
                    Seq<char>,
                >(error@)
                ||| written(store.passkeys[id].revoked_at) == Err::<
                    Option<Seq<char>>,
                    Seq<char>,
                >(error@)
            }
        }
}

/// Why a listing fails: an action failed; the directory gave no status; or a time of a passkey
/// cannot be written.
pub open spec fn fails_because(
    store: Store,
    request: ListPasskeysRequest,
    told: Heard,
    failure: Failure,
) -> bool {
    match told.fault {
        Some(error) => failure == Failure::Plugin(error),
        None => {
            ||| told.lacks_status(request.subject@, failure)
            ||| told.vouches(request.subject@) && cannot_tell(store, request, failure)
        },
    }
}

/// What a run that is over has told: what is stored, of a subject that the directory called
/// active, or that it did not; or it failed, for a reason of its own.
pub open spec fn listing_outcome(
    store: Store,
    request: ListPasskeysRequest,
    told: Heard,
    last: Next,
) -> bool {
    match last {
        Progress::Finished(Ok(response)) => {
            &&& told.fault is None
            &&& told.vouches(request.subject@)
            &&& tells(store, request, response)
        },
        Progress::Finished(Err(error)) => {
            &&& told.fault is None
            &&& told.denies(request.subject@)
            &&& error == ListPasskeysError::Disabled
        },
        Progress::Replay(_) => false,
        Progress::Failed(failure) => fails_because(store, request, told, failure),
        _ => true,
    }
}

/// What holds while a run waits or is over.
spec fn holds(
    store: Store,
    request: ListPasskeysRequest,
    told: Heard,
    progress: Next,
) -> bool {
    match progress {
        Progress::Act(run, action) => {
            &&& run.request == request
            &&& told.fault is None
            &&& match (run.stage, action) {
                (Stage::ReadingDirectory, Action::ReadDirectory { .. }) => told.directory is None,
                (Stage::LoadingSubject, Action::LoadSubject { subject }) => {
                    &&& told.vouches(request.subject@)
                    &&& subject == request.subject
                },
                (
                    Stage::LoadingPasskeys(row),
                    Action::LoadPasskeys { subject, include_revoked },
                ) => {
                    &&& told.vouches(request.subject@)
                    &&& subject == request.subject
                    &&& include_revoked == request.include_revoked
                    &&& store.subjects.dom().contains(subject@)
                    &&& row.revision == store.subjects[subject@].revision
                },
                _ => false,
            }
        },
        Progress::Encode(_, _) => false,
        _ => listing_outcome(store, request, told, progress),
    }
}

proof fn listed_rows_tell(
    store: Store,
    request: ListPasskeysRequest,
    rows: Seq<PasskeyRow>,
    response: ListPasskeysResponse,
)
    requires
        shows_passkeys(rows, store, request.subject@, request.include_revoked),
        lists(rows, response.passkeys@),
        store.subjects.dom().contains(request.subject@),
        response.revision@ == integer_text(store.subjects[request.subject@].revision),
    ensures
        tells(store, request, response),
{
    let passkeys = response.passkeys@;
    assert forall|i: int| 0 <= i < passkeys.len() implies {
        let id = (#[trigger] passkeys[i]).passkey_id@;
        &&& id == rows[i].passkey_id@
        &&& store.passkeys.dom().contains(id)
        &&& is_sought(store.passkeys[id], request)
        &&& describes(store.passkeys[id], passkeys[i])
    } by {
        assert(summarizes(rows[i], Ok(passkeys[i])));
    }
    assert forall|id: Seq<char>| #[trigger]
        store.passkeys.dom().contains(id) && is_sought(
            store.passkeys[id],
            request,
        ) implies exists|i: int|
        0 <= i < passkeys.len() && (#[trigger] passkeys[i]).passkey_id@ == id by {
        let i = choose|i: int| 0 <= i < rows.len() && (#[trigger] rows[i]).passkey_id@ == id;
        assert(passkeys[i].passkey_id@ == id);
    }
}

proof fn a_step_keeps_holding(
    request: ListPasskeysRequest,
    told: Heard,
    progress: Next,
    step: ListingStep,
    db: Database,
    after: Database,
)
    requires
        db.open is None,
        db.committed.is_kept(),
        holds(db.committed, request, told, progress),
        waiting(progress) matches Some(run) && advances(run, step.reply, step.next),
        step_on(progress, step, db, after),
    ensures
        after == db,
        holds(
            db.committed,
            request,
            told.and(step.reply),
            step.next,
        ),
{
    if let Progress::Finished(Ok(response)) = step.next {
        let run = waiting(progress)->0;
        match step.reply {
            Reply::Passkeys(rows) => {
                listed_rows_tell(db.committed, request, rows@, response);
            },
            _ => {
                reveal_strlit("0");
                assert("0"@ =~= integer_text(0));
                assert(tells(db.committed, request, response));
            },
        }
    }
}

proof fn a_run_keeps_holding(
    request: ListPasskeysRequest,
    first: Next,
    steps: Seq<ListingStep>,
    databases: Seq<Database>,
    count: int,
)
    requires
        databases[0].committed.is_kept(),
        listing_run(first, steps),
        run_on(first, steps, databases),
        holds(databases[0].committed, request, Heard::nothing(), first),
        0 <= count <= steps.len(),
    ensures
        databases[count] == databases[0],
        holds(
            databases[0].committed,
            request,
            heard(steps.take(count)),
            after_steps(first, steps, count),
        ),
    decreases count,
{
    if count > 0 {
        a_run_keeps_holding(request, first, steps, databases, count - 1);
        assert(steps.take(count).drop_last() =~= steps.take(count - 1));
        assert(steps.take(count).last() == steps[count - 1]);
        assert(step_on(
            after_steps(first, steps, count - 1),
            steps[count - 1],
            databases[count - 1],
            databases[count],
        ));
        a_step_keeps_holding(
            request,
            heard(steps.take(count - 1)),
            after_steps(first, steps, count - 1),
            steps[count - 1],
            databases[count - 1],
            databases[count],
        );
    }
}

/// A listing that has the database to itself tells what is stored and changes nothing. It needs a
/// subject that the directory calls active.
pub proof fn listings_tell_what_is_stored(
    active: ActiveView,
    context: InvocationContext,
    request: ListPasskeysRequest,
    now: Timestamp,
    first: Next,
    steps: Seq<ListingStep>,
    databases: Seq<Database>,
)
    requires
        starts(active, context, request, now, first),
        listing_run(first, steps),
        run_on(first, steps, databases),
        databases[0].committed.is_kept(),
    ensures
        databases.last() == databases[0],
        waiting(first) is Some ==> waiting(after_steps(first, steps, steps.len() as int)) is None
            ==> listing_outcome(
            databases[0].committed,
            request,
            heard(steps),
            after_steps(first, steps, steps.len() as int),
        ),
{
    match waiting(first) {
        Some(run) => {
            assert(steps.take(steps.len() as int) =~= steps);
            a_run_keeps_holding(request, first, steps, databases, steps.len() as int);
        },
        None => {
            if steps.len() > 0 {
                assert(waiting(after_steps(first, steps, 0)) is Some) by {
                    let step = steps[0];
                }
            }
        },
    }
}

} // verus!
