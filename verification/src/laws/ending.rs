//! Every run comes to an end, and in how many steps.

use lenso_kernel::InvocationContext;
use vstd::prelude::*;

use crate::active::ActiveView;
use crate::authenticated::UpdateStage;
use crate::challenge::ConsumeStage;
use crate::contract::{
    BeginAuthenticationRequest, BeginRegistrationRequest, FinishAuthenticationRequest,
    FinishRegistrationRequest, ListPasskeysRequest, RevokePasskeyRequest,
};
use crate::instant::Timestamp;
use crate::laws::authentication::{authentication_run, AuthenticationStep};
use crate::laws::history::{after_steps, waiting, Step};
use crate::laws::listing::{listing_run, ListingStep};
use crate::laws::registration::{registration_run, RegistrationStep};
use crate::laws::revocation::{revocation_run, RevocationStep};
use crate::laws::{authentication_challenge, registration_challenge};
use crate::storage::{Progress, Reply};
use crate::{
    begin_authentication, begin_registration, finish_authentication, finish_registration,
    list_passkeys, revoke_passkey,
};

verus! {

/// Whether every step of a run leaves less than there was.
spec fn leaves_less<S, R, E>(
    first: Progress<S, R, E>,
    steps: Seq<Step<S, R, E>>,
    left: spec_fn(S) -> int,
) -> bool {
    forall|i: int|
        0 <= i < steps.len() ==> {
            let before = waiting(after_steps(first, steps, i));
            let next = waiting((#[trigger] steps[i]).next);
            &&& before is Some
            &&& left(before->0) >= 0
            &&& next is Some ==> left(next->0) < left(before->0)
        }
}

proof fn counts_down<S, R, E>(
    first: Progress<S, R, E>,
    steps: Seq<Step<S, R, E>>,
    left: spec_fn(S) -> int,
    most: int,
    count: int,
)
    requires
        leaves_less(first, steps, left),
        most >= 0,
        waiting(first) matches Some(run) && left(run) < most,
        0 <= count <= steps.len(),
    ensures
        waiting(after_steps(first, steps, count)) matches Some(run) ==> left(run) < most - count,
        count <= most,
        count == steps.len() == most ==> waiting(after_steps(first, steps, count)) is None || left(
            waiting(after_steps(first, steps, count))->0,
        ) < 0,
    decreases count,
{
    if count > 0 {
        counts_down(first, steps, left, most, count - 1);
        let step = steps[count - 1];
    }
}

/// How many steps a run of begin-registration has left at most, after the next one.
spec fn begin_registration_left(stage: begin_registration::Stage) -> int {
    match stage {
        begin_registration::Stage::PruningChallenges => 14,
        begin_registration::Stage::PruningCommands => 13,
        begin_registration::Stage::Reserving => 12,
        begin_registration::Stage::Loading => 11,
        begin_registration::Stage::ReadingDirectory => 10,
        begin_registration::Stage::Beginning => 9,
        begin_registration::Stage::EnsuringSubject => 8,
        begin_registration::Stage::LockingSubject => 7,
        begin_registration::Stage::LockingPasskeys(_) => 6,
        begin_registration::Stage::Encoding(_, _) => 5,
        begin_registration::Stage::StoringChallenge(_, _, _) => 4,
        begin_registration::Stage::Completing(_) => 3,
        begin_registration::Stage::Committing(_) => 2,
        begin_registration::Stage::RollingBack(_) => 1,
        begin_registration::Stage::Recording(_) => 0,
    }
}

proof fn begin_registration_step_leaves_less(
    active: ActiveView,
    run: begin_registration::BeginRegistration,
    reply: Reply,
    now: Timestamp,
    next: begin_registration::Next,
)
    requires
        begin_registration::advances(active, run, reply, now, next),
    ensures
        begin_registration_left(run.stage) >= 0,
        waiting(next) matches Some(later) ==> begin_registration_left(later.stage)
            < begin_registration_left(run.stage),
{
}

#[verifier::opaque]
spec fn begin_registration_runs(
    active: ActiveView,
    first: begin_registration::Next,
    steps: Seq<registration_challenge::BeginStep>,
) -> bool {
    registration_challenge::begin_run(active, first, steps)
}

proof fn begin_registration_step_at(
    active: ActiveView,
    first: begin_registration::Next,
    steps: Seq<registration_challenge::BeginStep>,
    i: int,
)
    requires
        begin_registration_runs(active, first, steps),
        0 <= i < steps.len(),
    ensures
        ({
            let before = waiting(after_steps(first, steps, i));
            let next = waiting(steps[i].next);
            &&& before is Some
            &&& begin_registration_left(before->0.stage) >= 0
            &&& next is Some ==> begin_registration_left(next->0.stage) < begin_registration_left(
                before->0.stage,
            )
        }),
{
    reveal(begin_registration_runs);
    let step = steps[i];
    let run = waiting(after_steps(first, steps, i))->0;
    assert(begin_registration::advances(active, run, step.reply, step.now, step.next));
    begin_registration_step_leaves_less(active, run, step.reply, step.now, step.next);
}

proof fn begin_registration_is_short(
    active: ActiveView,
    first: begin_registration::Next,
    steps: Seq<registration_challenge::BeginStep>,
)
    requires
        begin_registration_runs(active, first, steps),
        waiting(first) matches Some(run) && begin_registration_left(run.stage) <= 14,
    ensures
        steps.len() <= 15,
        steps.len() == 15 ==> waiting(steps.last().next) is None,
{
    let left = |run: begin_registration::BeginRegistration| begin_registration_left(run.stage);
    assert forall|i: int| 0 <= i < steps.len() implies {
        let before = waiting(after_steps(first, steps, i));
        let next = waiting((#[trigger] steps[i]).next);
        &&& before is Some
        &&& left(before->0) >= 0
        &&& next is Some ==> left(next->0) < left(before->0)
    } by {
        begin_registration_step_at(active, first, steps, i);
    }
    counts_down(first, steps, left, 15, steps.len() as int);
}

proof fn begin_registration_begins(
    active: ActiveView,
    context: InvocationContext,
    request: BeginRegistrationRequest,
    request_json: Seq<u8>,
    now: Timestamp,
    first: begin_registration::Next,
)
    requires
        begin_registration::starts(active, context, request, request_json, now, first),
    ensures
        waiting(first) matches Some(run) ==> begin_registration_left(run.stage) <= 14,
{
}

/// A run of begin-registration is over after 15 steps at most, whatever it is answered.
pub proof fn begin_registration_comes_to_an_end(
    active: ActiveView,
    context: InvocationContext,
    request: BeginRegistrationRequest,
    request_json: Seq<u8>,
    now: Timestamp,
    first: begin_registration::Next,
    steps: Seq<registration_challenge::BeginStep>,
)
    requires
        begin_registration::starts(active, context, request, request_json, now, first),
        registration_challenge::begin_run(active, first, steps),
    ensures
        steps.len() <= 15,
        steps.len() == 15 ==> waiting(steps.last().next) is None,
{
    if steps.len() > 0 {
        let step = steps[0];
        assert(waiting(after_steps(first, steps, 0)) is Some);
        begin_registration_begins(active, context, request, request_json, now, first);
        reveal(begin_registration_runs);
        begin_registration_is_short(active, first, steps);
    }
}

/// How many steps a run of begin-authentication has left at most, after the next one.
spec fn begin_authentication_left(stage: begin_authentication::Stage) -> int {
    match stage {
        begin_authentication::Stage::PruningChallenges => 13,
        begin_authentication::Stage::PruningCommands => 12,
        begin_authentication::Stage::Reserving => 11,
        begin_authentication::Stage::Loading => 10,
        begin_authentication::Stage::ReadingDirectory => 9,
        begin_authentication::Stage::Beginning => 8,
        begin_authentication::Stage::LockingSubject => 7,
        begin_authentication::Stage::LockingPasskeys(_) => 6,
        begin_authentication::Stage::Encoding(_, _) => 5,
        begin_authentication::Stage::StoringChallenge(_, _, _) => 4,
        begin_authentication::Stage::Completing(_) => 3,
        begin_authentication::Stage::Committing(_) => 2,
        begin_authentication::Stage::RollingBack(_) => 1,
        begin_authentication::Stage::Recording(_) => 0,
    }
}

proof fn begin_authentication_step_leaves_less(
    active: ActiveView,
    run: begin_authentication::BeginAuthentication,
    reply: Reply,
    now: Timestamp,
    next: begin_authentication::Next,
)
    requires
        begin_authentication::advances(active, run, reply, now, next),
    ensures
        begin_authentication_left(run.stage) >= 0,
        waiting(next) matches Some(later) ==> begin_authentication_left(later.stage)
            < begin_authentication_left(run.stage),
{
}

#[verifier::opaque]
spec fn begin_authentication_runs(
    active: ActiveView,
    first: begin_authentication::Next,
    steps: Seq<authentication_challenge::BeginStep>,
) -> bool {
    authentication_challenge::begin_run(active, first, steps)
}

proof fn begin_authentication_step_at(
    active: ActiveView,
    first: begin_authentication::Next,
    steps: Seq<authentication_challenge::BeginStep>,
    i: int,
)
    requires
        begin_authentication_runs(active, first, steps),
        0 <= i < steps.len(),
    ensures
        ({
            let before = waiting(after_steps(first, steps, i));
            let next = waiting(steps[i].next);
            &&& before is Some
            &&& begin_authentication_left(before->0.stage) >= 0
            &&& next is Some ==> begin_authentication_left(next->0.stage)
                < begin_authentication_left(
                before->0.stage,
            )
        }),
{
    reveal(begin_authentication_runs);
    let step = steps[i];
    let run = waiting(after_steps(first, steps, i))->0;
    assert(begin_authentication::advances(active, run, step.reply, step.now, step.next));
    begin_authentication_step_leaves_less(active, run, step.reply, step.now, step.next);
}

proof fn begin_authentication_is_short(
    active: ActiveView,
    first: begin_authentication::Next,
    steps: Seq<authentication_challenge::BeginStep>,
)
    requires
        begin_authentication_runs(active, first, steps),
        waiting(first) matches Some(run) && begin_authentication_left(run.stage) <= 13,
    ensures
        steps.len() <= 14,
        steps.len() == 14 ==> waiting(steps.last().next) is None,
{
    let left = |run: begin_authentication::BeginAuthentication| begin_authentication_left(run.stage);
    assert forall|i: int| 0 <= i < steps.len() implies {
        let before = waiting(after_steps(first, steps, i));
        let next = waiting((#[trigger] steps[i]).next);
        &&& before is Some
        &&& left(before->0) >= 0
        &&& next is Some ==> left(next->0) < left(before->0)
    } by {
        begin_authentication_step_at(active, first, steps, i);
    }
    counts_down(first, steps, left, 14, steps.len() as int);
}

proof fn begin_authentication_begins(
    active: ActiveView,
    context: InvocationContext,
    request: BeginAuthenticationRequest,
    request_json: Seq<u8>,
    first: begin_authentication::Next,
)
    requires
        begin_authentication::starts(active, context, request, request_json, first),
    ensures
        waiting(first) matches Some(run) ==> begin_authentication_left(run.stage) <= 13,
{
}

/// A run of begin-authentication is over after 14 steps at most, whatever it is answered.
pub proof fn begin_authentication_comes_to_an_end(
    active: ActiveView,
    context: InvocationContext,
    request: BeginAuthenticationRequest,
    request_json: Seq<u8>,
    first: begin_authentication::Next,
    steps: Seq<authentication_challenge::BeginStep>,
)
    requires
        begin_authentication::starts(active, context, request, request_json, first),
        authentication_challenge::begin_run(active, first, steps),
    ensures
        steps.len() <= 14,
        steps.len() == 14 ==> waiting(steps.last().next) is None,
{
    if steps.len() > 0 {
        let step = steps[0];
        assert(waiting(after_steps(first, steps, 0)) is Some);
        begin_authentication_begins(active, context, request, request_json, first);
        reveal(begin_authentication_runs);
        begin_authentication_is_short(active, first, steps);
    }
}

/// How many steps a run of finish-registration has left at most, after the next one.
spec fn finish_registration_left(stage: finish_registration::Stage) -> int {
    match stage {
        finish_registration::Stage::Reserving => 18,
        finish_registration::Stage::Loading => 17,
        finish_registration::Stage::Verifying => 16,
        finish_registration::Stage::Consuming(ConsumeStage::Beginning) => 15,
        finish_registration::Stage::Consuming(ConsumeStage::Locking) => 14,
        finish_registration::Stage::Consuming(ConsumeStage::Missing) => 13,
        finish_registration::Stage::Consuming(ConsumeStage::Spent(_)) => 12,
        finish_registration::Stage::Consuming(ConsumeStage::Consuming(_)) => 11,
        finish_registration::Stage::Consuming(ConsumeStage::Consumed(_)) => 10,
        finish_registration::Stage::ReadingDirectory(_) => 9,
        finish_registration::Stage::Beginning(_, _) => 8,
        finish_registration::Stage::LockingSubject(_, _) => 7,
        finish_registration::Stage::Inserting(_) => 6,
        finish_registration::Stage::AdvancingSubject(_, _) => 5,
        finish_registration::Stage::Encoding(_) => 4,
        finish_registration::Stage::Completing(_) => 3,
        finish_registration::Stage::Committing(_) => 2,
        finish_registration::Stage::RollingBack(_) => 1,
        finish_registration::Stage::Recording(_) => 0,
    }
}

proof fn finish_registration_step_leaves_less(
    active: ActiveView,
    run: finish_registration::FinishRegistration,
    reply: Reply,
    now: Timestamp,
    next: finish_registration::Next,
)
    requires
        finish_registration::advances(active, run, reply, now, next),
    ensures
        finish_registration_left(run.stage) >= 0,
        waiting(next) matches Some(later) ==> finish_registration_left(later.stage)
            < finish_registration_left(run.stage),
{
}

#[verifier::opaque]
spec fn finish_registration_runs(
    active: ActiveView,
    first: finish_registration::Next,
    steps: Seq<RegistrationStep>,
) -> bool {
    registration_run(active, first, steps)
}

proof fn finish_registration_step_at(
    active: ActiveView,
    first: finish_registration::Next,
    steps: Seq<RegistrationStep>,
    i: int,
)
    requires
        finish_registration_runs(active, first, steps),
        0 <= i < steps.len(),
    ensures
        ({
            let before = waiting(after_steps(first, steps, i));
            let next = waiting(steps[i].next);
            &&& before is Some
            &&& finish_registration_left(before->0.stage) >= 0
            &&& next is Some ==> finish_registration_left(next->0.stage) < finish_registration_left(
                before->0.stage,
            )
        }),
{
    reveal(finish_registration_runs);
    let step = steps[i];
    let run = waiting(after_steps(first, steps, i))->0;
    assert(finish_registration::advances(active, run, step.reply, step.now, step.next));
    finish_registration_step_leaves_less(active, run, step.reply, step.now, step.next);
}

proof fn finish_registration_is_short(
    active: ActiveView,
    first: finish_registration::Next,
    steps: Seq<RegistrationStep>,
)
    requires
        finish_registration_runs(active, first, steps),
        waiting(first) matches Some(run) && finish_registration_left(run.stage) <= 18,
    ensures
        steps.len() <= 19,
        steps.len() == 19 ==> waiting(steps.last().next) is None,
{
    let left = |run: finish_registration::FinishRegistration| finish_registration_left(run.stage);
    assert forall|i: int| 0 <= i < steps.len() implies {
        let before = waiting(after_steps(first, steps, i));
        let next = waiting((#[trigger] steps[i]).next);
        &&& before is Some
        &&& left(before->0) >= 0
        &&& next is Some ==> left(next->0) < left(before->0)
    } by {
        finish_registration_step_at(active, first, steps, i);
    }
    counts_down(first, steps, left, 19, steps.len() as int);
}

proof fn finish_registration_begins(
    active: ActiveView,
    context: InvocationContext,
    request: FinishRegistrationRequest,
    request_json: Seq<u8>,
    now: Timestamp,
    first: finish_registration::Next,
)
    requires
        finish_registration::starts(active, context, request, request_json, now, first),
    ensures
        waiting(first) matches Some(run) ==> finish_registration_left(run.stage) <= 18,
{
}

/// A run of finish-registration is over after 19 steps at most, whatever it is answered.
pub proof fn finish_registration_comes_to_an_end(
    active: ActiveView,
    context: InvocationContext,
    request: FinishRegistrationRequest,
    request_json: Seq<u8>,
    now: Timestamp,
    first: finish_registration::Next,
    steps: Seq<RegistrationStep>,
)
    requires
        finish_registration::starts(active, context, request, request_json, now, first),
        registration_run(active, first, steps),
    ensures
        steps.len() <= 19,
        steps.len() == 19 ==> waiting(steps.last().next) is None,
{
    if steps.len() > 0 {
        let step = steps[0];
        assert(waiting(after_steps(first, steps, 0)) is Some);
        finish_registration_begins(active, context, request, request_json, now, first);
        reveal(finish_registration_runs);
        finish_registration_is_short(active, first, steps);
    }
}

/// How many steps a run of finish-authentication has left at most, after the next one.
spec fn finish_authentication_left(stage: finish_authentication::Stage) -> int {
    match stage {
        finish_authentication::Stage::Reserving => 24,
        finish_authentication::Stage::Loading => 23,
        finish_authentication::Stage::Verifying => 22,
        finish_authentication::Stage::Consuming(ConsumeStage::Beginning) => 21,
        finish_authentication::Stage::Consuming(ConsumeStage::Locking) => 20,
        finish_authentication::Stage::Consuming(ConsumeStage::Missing) => 19,
        finish_authentication::Stage::Consuming(ConsumeStage::Spent(_)) => 18,
        finish_authentication::Stage::Consuming(ConsumeStage::Consuming(_)) => 17,
        finish_authentication::Stage::Consuming(ConsumeStage::Consumed(_)) => 16,
        finish_authentication::Stage::ReadingDirectory { .. } => 15,
        finish_authentication::Stage::Updating { update: UpdateStage::Beginning, .. } => 14,
        finish_authentication::Stage::Updating { update: UpdateStage::LockingSubject, .. } => 13,
        finish_authentication::Stage::Updating { update: UpdateStage::LockingPasskeys, .. } => 12,
        finish_authentication::Stage::Updating { update: UpdateStage::UpdatingPasskey { .. }, .. } =>
            11,
        finish_authentication::Stage::Updating { update: UpdateStage::AdvancingSubject { .. }, .. } =>
            10,
        finish_authentication::Stage::Updating { update: UpdateStage::MarkingIssuing { .. }, .. } =>
            9,
        finish_authentication::Stage::Updating { update: UpdateStage::Committing { .. }, .. } => 8,
        finish_authentication::Stage::Updating { update: UpdateStage::RollingBack, .. } => 7,
        finish_authentication::Stage::Updating { update: UpdateStage::Abandoning, .. } => 6,
        finish_authentication::Stage::Issuing { .. } => 5,
        finish_authentication::Stage::Encoding(_) => 4,
        finish_authentication::Stage::Beginning(_, _, _) => 3,
        finish_authentication::Stage::Completing(_) => 2,
        finish_authentication::Stage::Committing(_) => 1,
        finish_authentication::Stage::Recording(_) => 0,
    }
}

proof fn finish_authentication_step_leaves_less(
    active: ActiveView,
    run: finish_authentication::FinishAuthentication,
    reply: Reply,
    now: Timestamp,
    next: finish_authentication::Next,
)
    requires
        finish_authentication::advances(active, run, reply, now, next),
    ensures
        finish_authentication_left(run.stage) >= 0,
        waiting(next) matches Some(later) ==> finish_authentication_left(later.stage)
            < finish_authentication_left(run.stage),
{
}

#[verifier::opaque]
spec fn finish_authentication_runs(
    active: ActiveView,
    first: finish_authentication::Next,
    steps: Seq<AuthenticationStep>,
) -> bool {
    authentication_run(active, first, steps)
}

proof fn finish_authentication_step_at(
    active: ActiveView,
    first: finish_authentication::Next,
    steps: Seq<AuthenticationStep>,
    i: int,
)
    requires
        finish_authentication_runs(active, first, steps),
        0 <= i < steps.len(),
    ensures
        ({
            let before = waiting(after_steps(first, steps, i));
            let next = waiting(steps[i].next);
            &&& before is Some
            &&& finish_authentication_left(before->0.stage) >= 0
            &&& next is Some ==> finish_authentication_left(next->0.stage)
                < finish_authentication_left(
                before->0.stage,
            )
        }),
{
    reveal(finish_authentication_runs);
    let step = steps[i];
    let run = waiting(after_steps(first, steps, i))->0;
    assert(finish_authentication::advances(active, run, step.reply, step.now, step.next));
    finish_authentication_step_leaves_less(active, run, step.reply, step.now, step.next);
}

proof fn finish_authentication_is_short(
    active: ActiveView,
    first: finish_authentication::Next,
    steps: Seq<AuthenticationStep>,
)
    requires
        finish_authentication_runs(active, first, steps),
        waiting(first) matches Some(run) && finish_authentication_left(run.stage) <= 24,
    ensures
        steps.len() <= 25,
        steps.len() == 25 ==> waiting(steps.last().next) is None,
{
    let left = |run: finish_authentication::FinishAuthentication| finish_authentication_left(run.stage);
    assert forall|i: int| 0 <= i < steps.len() implies {
        let before = waiting(after_steps(first, steps, i));
        let next = waiting((#[trigger] steps[i]).next);
        &&& before is Some
        &&& left(before->0) >= 0
        &&& next is Some ==> left(next->0) < left(before->0)
    } by {
        finish_authentication_step_at(active, first, steps, i);
    }
    counts_down(first, steps, left, 25, steps.len() as int);
}

proof fn finish_authentication_begins(
    active: ActiveView,
    context: InvocationContext,
    request: FinishAuthenticationRequest,
    request_json: Seq<u8>,
    first: finish_authentication::Next,
)
    requires
        finish_authentication::starts(active, context, request, request_json, first),
    ensures
        waiting(first) matches Some(run) ==> finish_authentication_left(run.stage) <= 24,
{
}

/// A run of finish-authentication is over after 25 steps at most, whatever it is answered.
pub proof fn finish_authentication_comes_to_an_end(
    active: ActiveView,
    context: InvocationContext,
    request: FinishAuthenticationRequest,
    request_json: Seq<u8>,
    first: finish_authentication::Next,
    steps: Seq<AuthenticationStep>,
)
    requires
        finish_authentication::starts(active, context, request, request_json, first),
        authentication_run(active, first, steps),
    ensures
        steps.len() <= 25,
        steps.len() == 25 ==> waiting(steps.last().next) is None,
{
    if steps.len() > 0 {
        let step = steps[0];
        assert(waiting(after_steps(first, steps, 0)) is Some);
        finish_authentication_begins(active, context, request, request_json, first);
        reveal(finish_authentication_runs);
        finish_authentication_is_short(active, first, steps);
    }
}

/// How many steps a run of revoke-passkey has left at most, after the next one.
spec fn revoke_passkey_left(stage: revoke_passkey::Stage) -> int {
    match stage {
        revoke_passkey::Stage::Reserving => 12,
        revoke_passkey::Stage::Loading => 11,
        revoke_passkey::Stage::ReadingDirectory => 10,
        revoke_passkey::Stage::Beginning => 9,
        revoke_passkey::Stage::LockingSubject => 8,
        revoke_passkey::Stage::LockingPasskey(_) => 7,
        revoke_passkey::Stage::Revoking => 6,
        revoke_passkey::Stage::AdvancingSubject { .. } => 5,
        revoke_passkey::Stage::Encoding(_) => 4,
        revoke_passkey::Stage::Completing(_) => 3,
        revoke_passkey::Stage::Committing(_) => 2,
        revoke_passkey::Stage::RollingBack(_) => 1,
        revoke_passkey::Stage::Recording(_) => 0,
    }
}

proof fn revoke_passkey_step_leaves_less(
    active: ActiveView,
    run: revoke_passkey::RevokePasskey,
    reply: Reply,
    next: revoke_passkey::Next,
)
    requires
        revoke_passkey::advances(active, run, reply, next),
    ensures
        revoke_passkey_left(run.stage) >= 0,
        waiting(next) matches Some(later) ==> revoke_passkey_left(later.stage)
            < revoke_passkey_left(run.stage),
{
}

#[verifier::opaque]
spec fn revoke_passkey_runs(
    active: ActiveView,
    first: revoke_passkey::Next,
    steps: Seq<RevocationStep>,
) -> bool {
    revocation_run(active, first, steps)
}

proof fn revoke_passkey_step_at(
    active: ActiveView,
    first: revoke_passkey::Next,
    steps: Seq<RevocationStep>,
    i: int,
)
    requires
        revoke_passkey_runs(active, first, steps),
        0 <= i < steps.len(),
    ensures
        ({
            let before = waiting(after_steps(first, steps, i));
            let next = waiting(steps[i].next);
            &&& before is Some
            &&& revoke_passkey_left(before->0.stage) >= 0
            &&& next is Some ==> revoke_passkey_left(next->0.stage) < revoke_passkey_left(
                before->0.stage,
            )
        }),
{
    reveal(revoke_passkey_runs);
    let step = steps[i];
    let run = waiting(after_steps(first, steps, i))->0;
    assert(revoke_passkey::advances(active, run, step.reply, step.next));
    revoke_passkey_step_leaves_less(active, run, step.reply, step.next);
}

proof fn revoke_passkey_is_short(
    active: ActiveView,
    first: revoke_passkey::Next,
    steps: Seq<RevocationStep>,
)
    requires
        revoke_passkey_runs(active, first, steps),
        waiting(first) matches Some(run) && revoke_passkey_left(run.stage) <= 12,
    ensures
        steps.len() <= 13,
        steps.len() == 13 ==> waiting(steps.last().next) is None,
{
    let left = |run: revoke_passkey::RevokePasskey| revoke_passkey_left(run.stage);
    assert forall|i: int| 0 <= i < steps.len() implies {
        let before = waiting(after_steps(first, steps, i));
        let next = waiting((#[trigger] steps[i]).next);
        &&& before is Some
        &&& left(before->0) >= 0
        &&& next is Some ==> left(next->0) < left(before->0)
    } by {
        revoke_passkey_step_at(active, first, steps, i);
    }
    counts_down(first, steps, left, 13, steps.len() as int);
}

proof fn revoke_passkey_begins(
    active: ActiveView,
    context: InvocationContext,
    request: RevokePasskeyRequest,
    request_json: Seq<u8>,
    now: Timestamp,
    first: revoke_passkey::Next,
)
    requires
        revoke_passkey::starts(active, context, request, request_json, now, first),
    ensures
        waiting(first) matches Some(run) ==> revoke_passkey_left(run.stage) <= 12,
{
}

/// A run of revoke-passkey is over after 13 steps at most, whatever it is answered.
pub proof fn revoke_passkey_comes_to_an_end(
    active: ActiveView,
    context: InvocationContext,
    request: RevokePasskeyRequest,
    request_json: Seq<u8>,
    now: Timestamp,
    first: revoke_passkey::Next,
    steps: Seq<RevocationStep>,
)
    requires
        revoke_passkey::starts(active, context, request, request_json, now, first),
        revocation_run(active, first, steps),
    ensures
        steps.len() <= 13,
        steps.len() == 13 ==> waiting(steps.last().next) is None,
{
    if steps.len() > 0 {
        let step = steps[0];
        assert(waiting(after_steps(first, steps, 0)) is Some);
        revoke_passkey_begins(active, context, request, request_json, now, first);
        reveal(revoke_passkey_runs);
        revoke_passkey_is_short(active, first, steps);
    }
}

/// How many steps a run of list-passkeys has left at most, after the next one.
spec fn list_passkeys_left(stage: list_passkeys::Stage) -> int {
    match stage {
        list_passkeys::Stage::ReadingDirectory => 2,
        list_passkeys::Stage::LoadingSubject => 1,
        list_passkeys::Stage::LoadingPasskeys(_) => 0,
    }
}

proof fn list_passkeys_step_leaves_less(
    run: list_passkeys::ListPasskeys,
    reply: Reply,
    next: list_passkeys::Next,
)
    requires
        list_passkeys::advances(run, reply, next),
    ensures
        list_passkeys_left(run.stage) >= 0,
        waiting(next) matches Some(later) ==> list_passkeys_left(later.stage)
            < list_passkeys_left(run.stage),
{
}

#[verifier::opaque]
spec fn list_passkeys_runs(
    first: list_passkeys::Next,
    steps: Seq<ListingStep>,
) -> bool {
    listing_run(first, steps)
}

proof fn list_passkeys_step_at(
    first: list_passkeys::Next,
    steps: Seq<ListingStep>,
    i: int,
)
    requires
        list_passkeys_runs(first, steps),
        0 <= i < steps.len(),
    ensures
        ({
            let before = waiting(after_steps(first, steps, i));
            let next = waiting(steps[i].next);
            &&& before is Some
            &&& list_passkeys_left(before->0.stage) >= 0
            &&& next is Some ==> list_passkeys_left(next->0.stage) < list_passkeys_left(
                before->0.stage,
            )
        }),
{
    reveal(list_passkeys_runs);
    let step = steps[i];
    let run = waiting(after_steps(first, steps, i))->0;
    assert(list_passkeys::advances(run, step.reply, step.next));
    list_passkeys_step_leaves_less(run, step.reply, step.next);
}

proof fn list_passkeys_is_short(
    first: list_passkeys::Next,
    steps: Seq<ListingStep>,
)
    requires
        list_passkeys_runs(first, steps),
        waiting(first) matches Some(run) && list_passkeys_left(run.stage) <= 2,
    ensures
        steps.len() <= 3,
        steps.len() == 3 ==> waiting(steps.last().next) is None,
{
    let left = |run: list_passkeys::ListPasskeys| list_passkeys_left(run.stage);
    assert forall|i: int| 0 <= i < steps.len() implies {
        let before = waiting(after_steps(first, steps, i));
        let next = waiting((#[trigger] steps[i]).next);
        &&& before is Some
        &&& left(before->0) >= 0
        &&& next is Some ==> left(next->0) < left(before->0)
    } by {
        list_passkeys_step_at(first, steps, i);
    }
    counts_down(first, steps, left, 3, steps.len() as int);
}

proof fn list_passkeys_begins(
    active: ActiveView,
    context: InvocationContext,
    request: ListPasskeysRequest,
    now: Timestamp,
    first: list_passkeys::Next,
)
    requires
        list_passkeys::starts(active, context, request, now, first),
    ensures
        waiting(first) matches Some(run) ==> list_passkeys_left(run.stage) <= 2,
{
}

/// A run of list-passkeys is over after 3 steps at most, whatever it is answered.
pub proof fn list_passkeys_comes_to_an_end(
    active: ActiveView,
    context: InvocationContext,
    request: ListPasskeysRequest,
    now: Timestamp,
    first: list_passkeys::Next,
    steps: Seq<ListingStep>,
)
    requires
        list_passkeys::starts(active, context, request, now, first),
        listing_run(first, steps),
    ensures
        steps.len() <= 3,
        steps.len() == 3 ==> waiting(steps.last().next) is None,
{
    if steps.len() > 0 {
        let step = steps[0];
        assert(waiting(after_steps(first, steps, 0)) is Some);
        list_passkeys_begins(active, context, request, now, first);
        reveal(list_passkeys_runs);
        list_passkeys_is_short(first, steps);
    }
}

} // verus!
