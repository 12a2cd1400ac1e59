//! A challenge is used once.
//!
//! The first laws hold however runs interleave: they speak of the steps of one run, and of stores
//! that any actions lead to. The last two speak of runs that follow one another.

use vstd::prelude::*;

use crate::active::ActiveView;
use crate::challenge::ConsumeStage;
use crate::contract::{FinishAuthenticationError, FinishRegistrationError};
use crate::laws::authentication::{authentication_outcome, authentication_run, AuthenticationStep};
use crate::laws::history::{after_steps, standing, waiting, Heard, Step};
use crate::laws::registration::{registration_outcome, registration_run, RegistrationStep};
use crate::laws::replay::codes_read_back_as_their_errors;
use crate::laws::{authentication, registration};
use crate::model::{answers, effect, Store};
use crate::rows::ChallengeRow;
use crate::storage::{Action, Progress, Reply};
use crate::{finish_authentication, finish_registration};

verus! {

/// What a consumption has found out so far.
spec fn is_consistent(caller: Seq<char>, stage: ConsumeStage) -> bool {
    match stage {
        ConsumeStage::Spent(row) => row.caller_instance@ != caller || row.consumed_at is Some,
        ConsumeStage::Consuming(row) => row.caller_instance@ == caller && row.consumed_at is None,
        ConsumeStage::Consumed(row) => row.caller_instance@ == caller && row.consumed_at is None,
        _ => true,
    }
}

/// What the action of a consumption is.
spec fn is_asked(challenge_id: String, stage: ConsumeStage, action: Action) -> bool {
    match stage {
        ConsumeStage::Locking => action matches Action::LockChallenge { challenge_id: asked, .. }
            && asked == challenge_id,
        ConsumeStage::Consuming(_) => action matches Action::ConsumeChallenge {
            challenge_id: asked,
            ..
        } && asked == challenge_id,
        ConsumeStage::Consumed(_) => action is Commit,
        _ => true,
    }
}

spec fn registration_is_consistent(next: finish_registration::Next) -> bool {
    match next {
        Progress::Act(run, action) => run.stage matches finish_registration::Stage::Consuming(stage)
            ==> {
            &&& is_consistent(run.task.key.caller@, stage)
            &&& is_asked(run.task.request.challenge_id, stage, action)
        },
        Progress::Encode(run, _) => run.stage is Encoding,
        _ => true,
    }
}

spec fn authentication_is_consistent(next: finish_authentication::Next) -> bool {
    match next {
        Progress::Act(run, action) => run.stage matches finish_authentication::Stage::Consuming(stage)
            ==> {
            &&& is_consistent(run.task.key.caller@, stage)
            &&& is_asked(run.task.request.challenge_id, stage, action)
        },
        Progress::Encode(run, _) => run.stage is Encoding,
        _ => true,
    }
}

proof fn a_registration_step_stays_consistent(
    active: ActiveView,
    progress: finish_registration::Next,
    step: RegistrationStep,
)
    requires
        registration_is_consistent(progress),
        waiting(progress) matches Some(run) && finish_registration::advances(
            active,
            run,
            step.reply,
            step.now,
            step.next,
        ),
    ensures
        registration_is_consistent(step.next),
        waiting(step.next) matches Some(run) ==> run.stage matches
            finish_registration::Stage::ReadingDirectory(challenge) ==> {
            &&& progress matches Progress::Act(earlier, action)
            &&& earlier.stage == finish_registration::Stage::Consuming(
                ConsumeStage::Consumed(challenge),
            )
            &&& earlier.task == run.task
            &&& action is Commit
            &&& step.reply is Done
            &&& challenge.caller_instance@ == run.task.key.caller@
            &&& challenge.consumed_at is None
            &&& step.now.unix_nanos < challenge.expires_at.unix_nanos
        },
        waiting(step.next) matches Some(run) ==> run.stage matches
            finish_registration::Stage::Consuming(ConsumeStage::Consumed(_)) ==> {
            &&& progress matches Progress::Act(earlier, action)
            &&& earlier.task == run.task
            &&& action matches Action::ConsumeChallenge { challenge_id, .. }
            &&& challenge_id == run.task.request.challenge_id
            &&& step.reply is Done
            &&& earlier.stage matches finish_registration::Stage::Consuming(ConsumeStage::Consuming(_))
        },
        waiting(step.next) matches Some(run) ==> run.stage matches
            finish_registration::Stage::Consuming(ConsumeStage::Consuming(row)) ==> {
            &&& progress matches Progress::Act(earlier, action)
            &&& earlier.task == run.task
            &&& action matches Action::LockChallenge { challenge_id, .. }
            &&& challenge_id == run.task.request.challenge_id
            &&& step.reply == Reply::Challenge(Some(row))
            &&& row.consumed_at is None
        },
{
}

proof fn an_authentication_step_stays_consistent(
    active: ActiveView,
    progress: finish_authentication::Next,
    step: AuthenticationStep,
)
    requires
        authentication_is_consistent(progress),
        waiting(progress) matches Some(run) && finish_authentication::advances(
            active,
            run,
            step.reply,
            step.now,
            step.next,
        ),
    ensures
        authentication_is_consistent(step.next),
        waiting(step.next) matches Some(run) ==> run.stage is ReadingDirectory ==> {
            &&& progress matches Progress::Act(earlier, action)
            &&& earlier.stage matches finish_authentication::Stage::Consuming(
                ConsumeStage::Consumed(_),
            )
            &&& earlier.task == run.task
            &&& action is Commit
            &&& step.reply is Done
        },
        waiting(step.next) matches Some(run) ==> run.stage matches
            finish_authentication::Stage::Consuming(ConsumeStage::Consumed(_)) ==> {
            &&& progress matches Progress::Act(earlier, action)
            &&& earlier.task == run.task
            &&& action matches Action::ConsumeChallenge { challenge_id, .. }
            &&& challenge_id == run.task.request.challenge_id
            &&& step.reply is Done
            &&& earlier.stage matches finish_authentication::Stage::Consuming(ConsumeStage::Consuming(_))
        },
        waiting(step.next) matches Some(run) ==> run.stage matches
            finish_authentication::Stage::Consuming(ConsumeStage::Consuming(row)) ==> {
            &&& progress matches Progress::Act(earlier, action)
            &&& earlier.task == run.task
            &&& action matches Action::LockChallenge { challenge_id, .. }
            &&& challenge_id == run.task.request.challenge_id
            &&& step.reply == Reply::Challenge(Some(row))
            &&& row.consumed_at is None
        },
{
}

proof fn registrations_stay_consistent(
    active: ActiveView,
    first: finish_registration::Next,
    steps: Seq<RegistrationStep>,
    count: int,
)
    requires
        registration_run(active, first, steps),
        registration_is_consistent(first),
        0 <= count <= steps.len(),
    ensures
        registration_is_consistent(after_steps(first, steps, count)),
    decreases count,
{
    if count > 0 {
        registrations_stay_consistent(active, first, steps, count - 1);
        a_registration_step_stays_consistent(
            active,
            after_steps(first, steps, count - 1),
            steps[count - 1],
        );
    }
}

proof fn authentications_stay_consistent(
    active: ActiveView,
    first: finish_authentication::Next,
    steps: Seq<AuthenticationStep>,
    count: int,
)
    requires
        authentication_run(active, first, steps),
        authentication_is_consistent(first),
        0 <= count <= steps.len(),
    ensures
        authentication_is_consistent(after_steps(first, steps, count)),
    decreases count,
{
    if count > 0 {
        authentications_stay_consistent(active, first, steps, count - 1);
        an_authentication_step_stays_consistent(
            active,
            after_steps(first, steps, count - 1),
            steps[count - 1],
        );
    }
}

/// Whether the three steps up to one locked a challenge that was not consumed, consumed it, and
/// committed that.
pub open spec fn just_consumed<S, R, E>(
    first: Progress<S, R, E>,
    steps: Seq<Step<S, R, E>>,
    count: int,
    challenge_id: String,
) -> bool {
    &&& 2 <= count < steps.len()
    &&& after_steps(first, steps, count - 2) matches Progress::Act(_, locking)
    &&& locking matches Action::LockChallenge { challenge_id: locked, .. }
    &&& locked == challenge_id
    &&& steps[count - 2].reply matches Reply::Challenge(Some(row))
    &&& row.consumed_at is None
    &&& after_steps(first, steps, count - 1) matches Progress::Act(_, action)
    &&& action matches Action::ConsumeChallenge { challenge_id: asked, .. }
    &&& asked == challenge_id
    &&& steps[count - 1].reply is Done
    &&& after_steps(first, steps, count) matches Progress::Act(_, Action::Commit { .. })
    &&& steps[count].reply is Done
}

/// A registration goes on past the challenge only in the step in which its own consumption of it
/// was committed, with a challenge of its caller that was not consumed before and has not
/// expired. So a response is never verified against a challenge that could be used again.
pub proof fn registrations_go_on_only_with_a_consumed_challenge(
    active: ActiveView,
    first: finish_registration::Next,
    steps: Seq<RegistrationStep>,
    count: int,
    run: finish_registration::FinishRegistration,
    challenge: ChallengeRow,
)
    requires
        first matches Progress::Act(begun, _) && begun.stage is Reserving,
        registration_run(active, first, steps),
        0 <= count < steps.len(),
        waiting(steps[count].next) == Some(run),
        run.stage == finish_registration::Stage::ReadingDirectory(challenge),
    ensures
        just_consumed(first, steps, count, run.task.request.challenge_id),
        challenge.caller_instance@ == run.task.key.caller@,
        challenge.consumed_at is None,
        steps[count].now.unix_nanos < challenge.expires_at.unix_nanos,
{
    registrations_stay_consistent(active, first, steps, count);
    a_registration_step_stays_consistent(active, after_steps(first, steps, count), steps[count]);
    if count > 0 {
        registrations_stay_consistent(active, first, steps, count - 1);
        a_registration_step_stays_consistent(
            active,
            after_steps(first, steps, count - 1),
            steps[count - 1],
        );
    }
    if count > 1 {
        registrations_stay_consistent(active, first, steps, count - 2);
        a_registration_step_stays_consistent(
            active,
            after_steps(first, steps, count - 2),
            steps[count - 2],
        );
    }
}

/// An authentication goes on past the challenge only in the step in which its own consumption of
/// it was committed. So a response is never verified against a challenge that could be used
/// again.
pub proof fn authentications_go_on_only_with_a_consumed_challenge(
    active: ActiveView,
    first: finish_authentication::Next,
    steps: Seq<AuthenticationStep>,
    count: int,
    run: finish_authentication::FinishAuthentication,
)
    requires
        first matches Progress::Act(begun, _) && begun.stage is Reserving,
        authentication_run(active, first, steps),
        0 <= count < steps.len(),
        waiting(steps[count].next) == Some(run),
        run.stage is ReadingDirectory,
    ensures
        just_consumed(first, steps, count, run.task.request.challenge_id),
{
    authentications_stay_consistent(active, first, steps, count);
    an_authentication_step_stays_consistent(
        active,
        after_steps(first, steps, count),
        steps[count],
    );
    if count > 0 {
        authentications_stay_consistent(active, first, steps, count - 1);
        an_authentication_step_stays_consistent(
            active,
            after_steps(first, steps, count - 1),
            steps[count - 1],
        );
    }
    if count > 1 {
        authentications_stay_consistent(active, first, steps, count - 2);
        an_authentication_step_stays_consistent(
            active,
            after_steps(first, steps, count - 2),
            steps[count - 2],
        );
    }
}

/// Whether a challenge cannot be used: it was consumed, or is not there.
pub open spec fn is_spent(store: Store, id: Seq<char>) -> bool {
    store.challenges.dom().contains(id) ==> store.challenges[id].consumed_at is Some
}

/// What runs do to a store, action by action and each at its time, in whatever order; none stores
/// another challenge under the identifier.
pub open spec fn in_any_order(
    stores: Seq<Store>,
    actions: Seq<(Action, int)>,
    id: Seq<char>,
) -> bool {
    &&& stores.len() == actions.len() + 1
    &&& forall|i: int|
        0 <= i < actions.len() ==> {
            &&& (#[trigger] actions[i]).0 matches Action::InsertChallenge(new) ==> new.challenge_id@
                != id
            &&& stores[i + 1] == effect(stores[i], actions[i].0, actions[i].1)
        }
}

proof fn stays_spent(stores: Seq<Store>, actions: Seq<(Action, int)>, id: Seq<char>, count: int)
    requires
        in_any_order(stores, actions, id),
        is_spent(stores[0], id),
        0 <= count <= actions.len(),
    ensures
        is_spent(stores[count], id),
    decreases count,
{
    if count > 0 {
        stays_spent(stores, actions, id, count - 1);
        let action = actions[count - 1];
        assert(stores[count] == effect(stores[count - 1], action.0, action.1));
    }
}

/// Once a challenge is consumed, and whatever runs do then and in whatever order, no store gives
/// the answer with which a run goes on past it. So of any number of runs that name one challenge
/// only one goes on: a challenge is locked from the answer to the commit.
pub proof fn a_consumed_challenge_takes_no_run_further<S, R, E>(
    first: Progress<S, R, E>,
    steps: Seq<Step<S, R, E>>,
    count: int,
    challenge_id: String,
    stores: Seq<Store>,
    actions: Seq<(Action, int)>,
    locking: Action,
    now: int,
)
    requires
        just_consumed(first, steps, count, challenge_id),
        in_any_order(stores, actions, challenge_id@),
        is_spent(stores[0], challenge_id@),
        after_steps(first, steps, count - 2) matches Progress::Act(_, action) && action == locking,
    ensures
        is_spent(stores.last(), challenge_id@),
        !answers(stores.last(), locking, now, steps[count - 2].reply),
{
    stays_spent(stores, actions, challenge_id@, actions.len() as int);
}

/// Of two registrations that name one challenge, one after the other and each a fresh command of
/// one caller, the second never succeeds, whatever came of the first, unless an action of that
/// failed. Where the challenge was the caller's and fits the second, the second is told that it was
/// used, unless an action of its own failed.
pub proof fn a_challenge_is_good_for_one_registration(
    active: ActiveView,
    earlier: finish_registration::Task,
    later: finish_registration::Task,
    before: Store,
    between: Store,
    after: Store,
    earliest: int,
    latest: int,
    told_earlier: Heard,
    told_later: Heard,
    first: finish_registration::Next,
    second: finish_registration::Next,
)
    requires
        earlier.request.challenge_id@ == later.request.challenge_id@,
        earlier.key.caller@ == later.key.caller@,
        standing(before, earlier.key@, earlier.intent@, active.receipt_key) is Fresh,
        standing(between, later.key@, later.intent@, active.receipt_key) is Fresh,
        waiting(first) is None,
        told_earlier.fault is None,
        registration_outcome(
            active,
            earlier,
            before,
            between,
            earliest,
            latest,
            told_earlier,
            first,
        ),
        waiting(second) is None,
        registration_outcome(
            active,
            later,
            between,
            after,
            earliest,
            latest,
            told_later,
            second,
        ),
    ensures
        !(second matches Progress::Finished(Ok(_))),
        registration::names_challenge(before, later) && registration::challenge_before(
            before,
            later,
        ).caller == later.key.caller@ && registration::challenge_fits(before, later) ==> (
        told_later.fault is Some && second is Failed || second == finish_registration::finished(
            FinishRegistrationError::ChallengeUsed,
        )),
{
    codes_read_back_as_their_errors();
}

/// Of two authentications that name one challenge, one after the other and each a fresh command of
/// one caller, the second never succeeds, whatever came of the first, unless an action of that
/// failed. Where the challenge was the caller's, the second is told that it was used, unless an
/// action of its own failed.
pub proof fn a_challenge_is_good_for_one_authentication(
    active: ActiveView,
    earlier: finish_authentication::Task,
    later: finish_authentication::Task,
    before: Store,
    between: Store,
    after: Store,
    earliest: int,
    latest: int,
    told_earlier: Heard,
    told_later: Heard,
    asked_earlier: nat,
    asked_later: nat,
    first: finish_authentication::Next,
    second: finish_authentication::Next,
)
    requires
        earlier.request.challenge_id@ == later.request.challenge_id@,
        earlier.key.caller@ == later.key.caller@,
        standing(before, earlier.key@, earlier.intent@, active.receipt_key) is Fresh,
        standing(between, later.key@, later.intent@, active.receipt_key) is Fresh,
        waiting(first) is None,
        told_earlier.fault is None,
        authentication_outcome(
            active,
            earlier,
            before,
            between,
            earliest,
            latest,
            told_earlier,
            asked_earlier,
            first,
        ),
        waiting(second) is None,
        authentication_outcome(
            active,
            later,
            between,
            after,
            earliest,
            latest,
            told_later,
            asked_later,
            second,
        ),
    ensures
        !(second matches Progress::Finished(Ok(_))),
        authentication::names_challenge(before, later) && authentication::challenge_before(
            before,
            later,
        ).caller == later.key.caller@ ==> (told_later.fault is Some && second is Failed
            || second == finish_authentication::finished(FinishAuthenticationError::ChallengeUsed)),
{
    codes_read_back_as_their_errors();
}

} // verus!
