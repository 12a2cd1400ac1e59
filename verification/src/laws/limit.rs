//! A subject never has more passkeys than it may have.
//!
//! The limit is tested when a registration begins, and the revision of the credential set when it
//! finishes. So what is kept is more than the limit: a registration challenge that is at the
//! current revision leaves room for one more passkey, and none is ahead of it.

use lenso_kernel::InvocationContext;
use vstd::prelude::*;

use crate::active::ActiveView;
use crate::contract::{
    BeginAuthenticationRequest, BeginRegistrationRequest, BeginRegistrationResponse,
    FinishAuthenticationRequest, FinishRegistrationRequest, FinishRegistrationResponse,
    ListPasskeysRequest, RevokePasskeyRequest,
};
use crate::instant::Timestamp;
use crate::laws::authentication::{
    authentication_run, authentications_do_as_they_tell, AuthenticationStep,
};
use crate::laws::history::{
    after_pruning, after_steps, heard, prunes, run_on, same_state, waiting, Step,
};
use crate::laws::listing::{listing_run, listings_tell_what_is_stored, ListingStep};
use crate::laws::registration::{
    registration_run, registrations_do_as_they_tell, RegistrationStep,
};
use crate::laws::revocation::{revocation_run, revocations_do_as_they_tell, RevocationStep};
use crate::laws::{authentication_challenge, registration, registration_challenge};
use crate::model::{shows_passkeys, ChallengeRecord, Database, PasskeyRecord, Store};
use crate::rows::PasskeyRow;
use crate::storage::ChallengeKind;
use crate::{
    begin_authentication, begin_registration, finish_authentication, finish_registration,
    list_passkeys, revoke_passkey,
};

verus! {

/// Whether a list holds every passkey of a subject that is not revoked.
pub open spec fn covers(ids: Seq<Seq<char>>, store: Store, subject: Seq<char>) -> bool {
    forall|id: Seq<char>| #[trigger]
        store.passkeys.dom().contains(id) && store.passkeys[id].subject == subject
            && store.passkeys[id].revoked_at is None ==> ids.contains(id)
}

/// Whether a subject has at most so many passkeys that are not revoked.
pub open spec fn has_at_most(store: Store, subject: Seq<char>, count: int) -> bool {
    exists|ids: Seq<Seq<char>>| ids.len() <= count && #[trigger] covers(ids, store, subject)
}

/// No subject has more passkeys that are not revoked than the limit; and a registration challenge
/// is not ahead of its subject's revision, and where it is at it, the subject has fewer.
pub open spec fn keeps_the_limit(store: Store, limit: int) -> bool {
    &&& forall|subject: Seq<char>| #[trigger] has_at_most(store, subject, limit)
    &&& forall|id: Seq<char>| #[trigger]
        store.challenges.dom().contains(id) && store.challenges[id].kind
            == ChallengeKind::Registration ==> {
            let challenge = store.challenges[id];
            let revision = store.subjects[challenge.subject].revision;
            &&& challenge.expected_revision <= revision
            &&& challenge.expected_revision == revision ==> has_at_most(
                store,
                challenge.subject,
                limit - 1,
            )
        }
}

/// A store that holds nothing keeps the limit.
pub proof fn an_empty_store_keeps_the_limit(store: Store, limit: int)
    requires
        store.passkeys == Map::<Seq<char>, PasskeyRecord>::empty(),
        store.challenges == Map::<Seq<char>, ChallengeRecord>::empty(),
        limit >= 0,
    ensures
        keeps_the_limit(store, limit),
{
    assert forall|subject: Seq<char>| #[trigger] has_at_most(store, subject, limit) by {
        assert(covers(Seq::empty(), store, subject));
    }
}

/// Passkeys that are the same or revoked are no more.
proof fn no_more_passkeys(before: Store, after: Store, subject: Seq<char>, count: int)
    requires
        has_at_most(before, subject, count),
        forall|id: Seq<char>| #[trigger]
            after.passkeys.dom().contains(id) && after.passkeys[id].subject == subject
                && after.passkeys[id].revoked_at is None ==> before.passkeys.dom().contains(id)
                && before.passkeys[id].subject == subject && before.passkeys[id].revoked_at is None,
    ensures
        has_at_most(after, subject, count),
{
    let ids = choose|ids: Seq<Seq<char>>|
        ids.len() <= count && #[trigger] covers(ids, before, subject);
    assert(covers(ids, after, subject));
}

/// A store that gains no passkey and no registration challenge, and whose revisions do not go
/// back, keeps the limit.
proof fn nothing_gained(before: Store, after: Store, limit: int)
    requires
        before.is_kept(),
        keeps_the_limit(before, limit),
        forall|id: Seq<char>| #[trigger]
            after.passkeys.dom().contains(id) && after.passkeys[id].revoked_at is None
                ==> before.passkeys.dom().contains(id) && before.passkeys[id].revoked_at is None
                && before.passkeys[id].subject == after.passkeys[id].subject,
        forall|id: Seq<char>| #[trigger]
            after.challenges.dom().contains(id) && after.challenges[id].kind
                == ChallengeKind::Registration ==> {
                &&& before.challenges.dom().contains(id)
                &&& before.challenges[id].kind == ChallengeKind::Registration
                &&& before.challenges[id].subject == after.challenges[id].subject
                &&& before.challenges[id].expected_revision
                    == after.challenges[id].expected_revision
            },
        forall|subject: Seq<char>| #[trigger]
            before.subjects.dom().contains(subject) ==> before.subjects[subject].revision
                <= after.subjects[subject].revision,
    ensures
        keeps_the_limit(after, limit),
{
    assert forall|subject: Seq<char>| #[trigger] has_at_most(after, subject, limit) by {
        assert(has_at_most(before, subject, limit));
        no_more_passkeys(before, after, subject, limit);
    }
    assert forall|id: Seq<char>| #[trigger]
        after.challenges.dom().contains(id) && after.challenges[id].kind
            == ChallengeKind::Registration implies {
        let challenge = after.challenges[id];
        let revision = after.subjects[challenge.subject].revision;
        &&& challenge.expected_revision <= revision
        &&& challenge.expected_revision == revision ==> has_at_most(
            after,
            challenge.subject,
            limit - 1,
        )
    } by {
        let challenge = after.challenges[id];
        assert(before.challenges.dom().contains(id));
        assert(before.subjects.dom().contains(challenge.subject));
        if challenge.expected_revision == after.subjects[challenge.subject].revision {
            no_more_passkeys(before, after, challenge.subject, limit - 1);
        }
    }
}

/// Pruning keeps the limit.
proof fn pruning_keeps_the_limit<S, R, E>(
    before: Store,
    steps: Seq<Step<S, R, E>>,
    receipt_ttl_seconds: u64,
    base: Store,
    limit: int,
)
    requires
        before.is_kept(),
        keeps_the_limit(before, limit),
        prunes(before, steps, receipt_ttl_seconds, base),
    ensures
        keeps_the_limit(base, limit),
        base.is_kept(),
{
    nothing_gained(before, base, limit);
}

proof fn rows_count(rows: Seq<PasskeyRow>, store: Store, subject: Seq<char>)
    requires
        shows_passkeys(rows, store, subject, false),
    ensures
        has_at_most(store, subject, rows.len() as int),
{
    let ids = rows.map_values(|row: PasskeyRow| row.passkey_id@);
    assert forall|id: Seq<char>| #[trigger]
        store.passkeys.dom().contains(id) && store.passkeys[id].subject == subject
            && store.passkeys[id].revoked_at is None implies ids.contains(id) by {
        let i = choose|i: int| 0 <= i < rows.len() && (#[trigger] rows[i]).passkey_id@ == id;
        assert(ids[i] == id);
    }
    assert(covers(ids, store, subject));
}

/// A challenge that is stored while there is room keeps the limit.
proof fn a_challenge_keeps_the_limit(
    active: ActiveView,
    base: Store,
    after: Store,
    task: begin_registration::Task,
    earliest: int,
    latest: int,
    response: BeginRegistrationResponse,
)
    requires
        base.is_kept(),
        keeps_the_limit(base, active.config.max_passkeys_per_subject as int),
        registration_challenge::tells(active, base, after, task, earliest, latest, response),
    ensures
        keeps_the_limit(after, active.config.max_passkeys_per_subject as int),
{
    let limit = active.config.max_passkeys_per_subject as int;
    let subject = task.request.subject@;
    let id = response.challenge_id@;
    let rows = choose|rows: Seq<PasskeyRow>|
        {
            &&& #[trigger] shows_passkeys(rows, base, subject, false)
            &&& rows.len() < active.config.max_passkeys_per_subject
        };
    rows_count(rows, base, subject);
    let ids = choose|ids: Seq<Seq<char>>|
        ids.len() <= rows.len() && #[trigger] covers(ids, base, subject);
    assert(covers(ids, after, subject));
    assert(has_at_most(after, subject, limit - 1));
    assert forall|other: Seq<char>| #[trigger] has_at_most(after, other, limit) by {
        assert(has_at_most(base, other, limit));
        no_more_passkeys(base, after, other, limit);
    }
    assert forall|other: Seq<char>| #[trigger]
        after.challenges.dom().contains(other) && after.challenges[other].kind
            == ChallengeKind::Registration implies {
        let challenge = after.challenges[other];
        let revision = after.subjects[challenge.subject].revision;
        &&& challenge.expected_revision <= revision
        &&& challenge.expected_revision == revision ==> has_at_most(
            after,
            challenge.subject,
            limit - 1,
        )
    } by {
        let challenge = after.challenges[other];
        if other != id {
            assert(base.challenges.dom().contains(other));
            assert(base.subjects.dom().contains(challenge.subject));
            if challenge.expected_revision == after.subjects[challenge.subject].revision {
                no_more_passkeys(base, after, challenge.subject, limit - 1);
            }
        }
    }
}

/// Beginning a registration keeps the limit, however it ends.
pub proof fn begin_registrations_keep_the_limit(
    active: ActiveView,
    context: InvocationContext,
    request: BeginRegistrationRequest,
    request_json: Seq<u8>,
    now: Timestamp,
    first: begin_registration::Next,
    steps: Seq<registration_challenge::BeginStep>,
    databases: Seq<Database>,
    earliest: int,
    latest: int,
)
    requires
        active.config.keeps_limits(),
        begin_registration::starts(active, context, request, request_json, now, first),
        registration_challenge::begin_run(active, first, steps),
        run_on(first, steps, databases),
        waiting(after_steps(first, steps, steps.len() as int)) is None,
        databases[0].committed.is_kept(),
        forall|i: int|
            0 <= i < steps.len() ==> {
                &&& (#[trigger] steps[i]).now.reaches(
                    active.config.challenge_ttl_seconds as int,
                )
                &&& earliest <= steps[i].now.unix_nanos <= latest
            },
        keeps_the_limit(
            databases[0].committed,
            active.config.max_passkeys_per_subject as int,
        ),
    ensures
        keeps_the_limit(
            databases.last().committed,
            active.config.max_passkeys_per_subject as int,
        ),
{
    let limit = active.config.max_passkeys_per_subject as int;
    let before = databases[0].committed;
    let after = databases.last().committed;
    let last = after_steps(first, steps, steps.len() as int);
    registration_challenge::beginnings_do_as_they_tell(
        active,
        context,
        request,
        request_json,
        now,
        first,
        steps,
        databases,
        earliest,
        latest,
    );
    if let Some(run) = waiting(first) {
        let base = after_pruning(databases);
        let told = heard(steps);
        pruning_keeps_the_limit(
            before,
            steps,
            active.config.receipt_ttl_seconds,
            base,
            limit,
        );
        if same_state(base, after) {
            nothing_gained(base, after, limit);
        } else {
            let response = choose|response: BeginRegistrationResponse| #[trigger]
                registration_challenge::has_succeeded(
                    active,
                    run.task,
                    base,
                    after,
                    earliest,
                    latest,
                    told,
                    response,
                );
            assert(registration_challenge::has_succeeded(
                active,
                run.task,
                base,
                after,
                earliest,
                latest,
                told,
                response,
            ));
            a_challenge_keeps_the_limit(
                active,
                base,
                after,
                run.task,
                earliest,
                latest,
                response,
            );
        }
    }
}

/// Beginning an authentication keeps the limit, however it ends.
pub proof fn begin_authentications_keep_the_limit(
    active: ActiveView,
    context: InvocationContext,
    request: BeginAuthenticationRequest,
    request_json: Seq<u8>,
    first: begin_authentication::Next,
    steps: Seq<authentication_challenge::BeginStep>,
    databases: Seq<Database>,
    earliest: int,
    latest: int,
)
    requires
        active.config.keeps_limits(),
        begin_authentication::starts(active, context, request, request_json, first),
        authentication_challenge::begin_run(active, first, steps),
        run_on(first, steps, databases),
        waiting(after_steps(first, steps, steps.len() as int)) is None,
        databases[0].committed.is_kept(),
        forall|i: int|
            0 <= i < steps.len() ==> {
                &&& (#[trigger] steps[i]).now.reaches(
                    active.config.challenge_ttl_seconds as int,
                )
                &&& earliest <= steps[i].now.unix_nanos <= latest
            },
        keeps_the_limit(
            databases[0].committed,
            active.config.max_passkeys_per_subject as int,
        ),
    ensures
        keeps_the_limit(
            databases.last().committed,
            active.config.max_passkeys_per_subject as int,
        ),
{
    let limit = active.config.max_passkeys_per_subject as int;
    let before = databases[0].committed;
    let after = databases.last().committed;
    let last = after_steps(first, steps, steps.len() as int);
    authentication_challenge::beginnings_do_as_they_tell(
        active,
        context,
        request,
        request_json,
        first,
        steps,
        databases,
        earliest,
        latest,
    );
    if waiting(first) is Some {
        let base = after_pruning(databases);
        pruning_keeps_the_limit(
            before,
            steps,
            active.config.receipt_ttl_seconds,
            base,
            limit,
        );
        nothing_gained(base, after, limit);
    }
}

/// A passkey that joins on a fitting challenge keeps the limit.
proof fn a_passkey_keeps_the_limit(
    active: ActiveView,
    before: Store,
    after: Store,
    task: finish_registration::Task,
    earliest: int,
    response: FinishRegistrationResponse,
)
    requires
        before.is_kept(),
        keeps_the_limit(before, active.config.max_passkeys_per_subject as int),
        registration::tells(active, before, after, task, earliest, response),
    ensures
        keeps_the_limit(after, active.config.max_passkeys_per_subject as int),
{
    let limit = active.config.max_passkeys_per_subject as int;
    let subject = task.request.subject@;
    let new = response.passkey.passkey_id@;
    assert(before.challenges.dom().contains(task.request.challenge_id@));
    assert(has_at_most(before, subject, limit - 1));
    let ids = choose|ids: Seq<Seq<char>>|
        ids.len() <= limit - 1 && #[trigger] covers(ids, before, subject);
    assert(covers(ids.push(new), after, subject)) by {
        assert forall|id: Seq<char>| #[trigger]
            after.passkeys.dom().contains(id) && after.passkeys[id].subject == subject
                && after.passkeys[id].revoked_at is None implies ids.push(
            new,
        ).contains(id) by {
            if id == new {
                assert(ids.push(new)[ids.len() as int] == new);
            } else {
                assert(before.passkeys.dom().contains(id));
                let i = choose|i: int| 0 <= i < ids.len() && ids[i] == id;
                assert(ids.push(new)[i] == id);
            }
        }
    }
    assert(has_at_most(after, subject, limit));
    assert forall|other: Seq<char>| #[trigger] has_at_most(after, other, limit) by {
        if other != subject {
            assert(has_at_most(before, other, limit));
            no_more_passkeys(before, after, other, limit);
        }
    }
    assert forall|id: Seq<char>| #[trigger]
        after.challenges.dom().contains(id) && after.challenges[id].kind
            == ChallengeKind::Registration implies {
        let challenge = after.challenges[id];
        let revision = after.subjects[challenge.subject].revision;
        &&& challenge.expected_revision <= revision
        &&& challenge.expected_revision == revision ==> has_at_most(
            after,
            challenge.subject,
            limit - 1,
        )
    } by {
        let challenge = after.challenges[id];
        assert(before.challenges.dom().contains(id));
        if challenge.subject != subject && challenge.expected_revision
            == after.subjects[challenge.subject].revision {
            no_more_passkeys(before, after, challenge.subject, limit - 1);
        }
    }
}

/// Finishing a registration keeps the limit, however it ends, and even if several were begun while
/// there was room for one.
pub proof fn registrations_keep_the_limit(
    active: ActiveView,
    context: InvocationContext,
    request: FinishRegistrationRequest,
    request_json: Seq<u8>,
    now: Timestamp,
    first: finish_registration::Next,
    steps: Seq<RegistrationStep>,
    databases: Seq<Database>,
    earliest: int,
    latest: int,
)
    requires
        finish_registration::starts(active, context, request, request_json, now, first),
        registration_run(active, first, steps),
        run_on(first, steps, databases),
        waiting(after_steps(first, steps, steps.len() as int)) is None,
        databases[0].committed.is_kept(),
        forall|i: int|
            0 <= i < steps.len() ==> earliest <= (#[trigger] steps[i]).now.unix_nanos <= latest,
        keeps_the_limit(
            databases[0].committed,
            active.config.max_passkeys_per_subject as int,
        ),
    ensures
        keeps_the_limit(
            databases.last().committed,
            active.config.max_passkeys_per_subject as int,
        ),
{
    let limit = active.config.max_passkeys_per_subject as int;
    let before = databases[0].committed;
    let after = databases.last().committed;
    let last = after_steps(first, steps, steps.len() as int);
    registrations_do_as_they_tell(
        active,
        context,
        request,
        request_json,
        now,
        first,
        steps,
        databases,
        earliest,
        latest,
    );
    if let Some(run) = waiting(first) {
        let told = heard(steps);
        if same_state(before, after) || registration::looked_at(before, after, run.task) {
            nothing_gained(before, after, limit);
        } else {
            let response = choose|response: FinishRegistrationResponse| #[trigger]
                registration::has_succeeded(
                    active,
                    run.task,
                    before,
                    after,
                    earliest,
                    told,
                    response,
                );
            assert(registration::has_succeeded(
                active,
                run.task,
                before,
                after,
                earliest,
                told,
                response,
            ));
            a_passkey_keeps_the_limit(active, before, after, run.task, earliest, response);
        }
    }
}

/// Finishing an authentication keeps the limit, however it ends.
pub proof fn authentications_keep_the_limit(
    active: ActiveView,
    context: InvocationContext,
    request: FinishAuthenticationRequest,
    request_json: Seq<u8>,
    first: finish_authentication::Next,
    steps: Seq<AuthenticationStep>,
    databases: Seq<Database>,
    earliest: int,
    latest: int,
)
    requires
        finish_authentication::starts(active, context, request, request_json, first),
        authentication_run(active, first, steps),
        run_on(first, steps, databases),
        waiting(after_steps(first, steps, steps.len() as int)) is None,
        databases[0].committed.is_kept(),
        forall|i: int|
            0 <= i < steps.len() ==> earliest <= (#[trigger] steps[i]).now.unix_nanos <= latest,
        keeps_the_limit(
            databases[0].committed,
            active.config.max_passkeys_per_subject as int,
        ),
    ensures
        keeps_the_limit(
            databases.last().committed,
            active.config.max_passkeys_per_subject as int,
        ),
{
    let limit = active.config.max_passkeys_per_subject as int;
    let before = databases[0].committed;
    let after = databases.last().committed;
    let last = after_steps(first, steps, steps.len() as int);
    authentications_do_as_they_tell(
        active,
        context,
        request,
        request_json,
        first,
        steps,
        databases,
        earliest,
        latest,
    );
    if waiting(first) is Some {
        nothing_gained(before, after, limit);
    }
}

/// A revocation keeps the limit, however it ends.
pub proof fn revocations_keep_the_limit(
    active: ActiveView,
    context: InvocationContext,
    request: RevokePasskeyRequest,
    request_json: Seq<u8>,
    now: Timestamp,
    first: revoke_passkey::Next,
    steps: Seq<RevocationStep>,
    databases: Seq<Database>,
)
    requires
        revoke_passkey::starts(active, context, request, request_json, now, first),
        revocation_run(active, first, steps),
        run_on(first, steps, databases),
        waiting(after_steps(first, steps, steps.len() as int)) is None,
        databases[0].committed.is_kept(),
        keeps_the_limit(
            databases[0].committed,
            active.config.max_passkeys_per_subject as int,
        ),
    ensures
        keeps_the_limit(
            databases.last().committed,
            active.config.max_passkeys_per_subject as int,
        ),
{
    let limit = active.config.max_passkeys_per_subject as int;
    let before = databases[0].committed;
    let after = databases.last().committed;
    let last = after_steps(first, steps, steps.len() as int);
    revocations_do_as_they_tell(
        active,
        context,
        request,
        request_json,
        now,
        first,
        steps,
        databases,
    );
    if waiting(first) is Some {
        nothing_gained(before, after, limit);
    }
}

/// A listing keeps the limit, however it ends.
pub proof fn listings_keep_the_limit(
    active: ActiveView,
    context: InvocationContext,
    request: ListPasskeysRequest,
    now: Timestamp,
    first: list_passkeys::Next,
    steps: Seq<ListingStep>,
    databases: Seq<Database>,
)
    requires
        list_passkeys::starts(active, context, request, now, first),
        listing_run(first, steps),
        run_on(first, steps, databases),
        waiting(after_steps(first, steps, steps.len() as int)) is None,
        databases[0].committed.is_kept(),
        keeps_the_limit(
            databases[0].committed,
            active.config.max_passkeys_per_subject as int,
        ),
    ensures
        keeps_the_limit(
            databases.last().committed,
            active.config.max_passkeys_per_subject as int,
        ),
{
    let limit = active.config.max_passkeys_per_subject as int;
    let before = databases[0].committed;
    let after = databases.last().committed;
    let last = after_steps(first, steps, steps.len() as int);
    listings_tell_what_is_stored(
        active,
        context,
        request,
        now,
        first,
        steps,
        databases,
    );
}

} // verus!
