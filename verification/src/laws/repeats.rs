//! A repeated call is answered as the first one was.
//!
//! The laws speak of two runs of one operation, each with the database to itself, and of what
//! others do in between.

use lenso_kernel::InvocationContext;
use vstd::prelude::*;

use crate::active::ActiveView;
use crate::authority::calling_instance;
use crate::command::CommandKeyView;
use crate::contract::{
    BeginAuthenticationError, BeginAuthenticationRequest, BeginRegistrationError,
    BeginRegistrationRequest, FinishAuthenticationError, FinishAuthenticationRequest,
    FinishRegistrationError, FinishRegistrationRequest, RevokePasskeyError, RevokePasskeyRequest,
};
use crate::failure::Failure;
use crate::instant::Timestamp;
use crate::laws::authentication::{
    authentication_outcome, authentication_run, authentications_do_as_they_tell,
    AuthenticationStep,
};
use crate::laws::history::{
    after_pruning, after_steps, commands_stay_meanwhile, heard, meanwhile, prunes, run_on,
    sessions_asked, waiting, within_retention, Heard, Step,
};
use crate::laws::registration::{
    registration_outcome, registration_run, registrations_do_as_they_tell, RegistrationStep,
};
use crate::laws::revocation::{
    revocation_outcome, revocation_run, revocations_do_as_they_tell, RevocationStep,
};
use crate::laws::{authentication_challenge, registration_challenge};
use crate::model::{CommandRecord, Database, Store};
use crate::receipt::sha256;
use crate::storage::{Action, Progress};
use crate::{
    begin_authentication, begin_registration, finish_authentication, finish_registration,
    revoke_passkey,
};

verus! {

/// How a repeated call ends, given how the first one ended, what each was told, the command that
/// the first one left, and the refusal that its code stands for. Unless an action of the repeated
/// call failed: with another intent it is a conflict; a success is replayed with the same bytes; a
/// refusal is given again; and where the first call failed, the operation is in progress, unless
/// what failed completed the command nevertheless, which is then answered as it was completed.
pub open spec fn answered_again<S, R, E>(
    same_intent: bool,
    told: Heard,
    told_later: Heard,
    left: CommandRecord,
    refusal: Progress<S, R, E>,
    first: Progress<S, R, E>,
    second: Progress<S, R, E>,
    conflict: E,
    in_progress: E,
) -> bool {
    match told_later.fault {
        Some(error) => second == Progress::Failed::<S, R, E>(Failure::Plugin(error)),
        None => if !same_intent {
            second == Progress::Finished::<S, R, E>(Err(conflict))
        } else {
            match first {
                Progress::Finished(Ok(_)) => is_replay(second, told.bytes),
                Progress::Finished(Err(_)) => second == first,
                _ => if left.is_open() {
                    second == Progress::Finished::<S, R, E>(Err(in_progress))
                } else {
                    &&& told.fault is Some
                    &&& if left.status is CompletedError {
                        second == refusal
                    } else {
                        is_replay(second, told.bytes)
                    }
                },
            }
        },
    }
}

/// Whether a run ends by replaying bytes.
pub open spec fn is_replay<S, R, E>(last: Progress<S, R, E>, bytes: Option<Seq<u8>>) -> bool {
    last matches Progress::Replay(replayed) && Some(replayed@) == bytes
}

/// Two runs, each of them over; the second begins with what others made of the store that the
/// first one left.
pub open spec fn follows<S, R, E>(
    key: CommandKeyView,
    first: Progress<S, R, E>,
    steps: Seq<Step<S, R, E>>,
    databases: Seq<Database>,
    stores: Seq<Store>,
    actions: Seq<(Action, int)>,
    again: Progress<S, R, E>,
    later_steps: Seq<Step<S, R, E>>,
    later_databases: Seq<Database>,
) -> bool {
    &&& waiting(after_steps(first, steps, steps.len() as int)) is None
    &&& waiting(after_steps(again, later_steps, later_steps.len() as int)) is None
    &&& run_on(first, steps, databases)
    &&& run_on(again, later_steps, later_databases)
    &&& databases[0].committed.is_kept()
    &&& later_databases[0].committed.is_kept()
    &&& !databases[0].committed.commands.dom().contains(key)
    &&& after_steps(first, steps, steps.len() as int) is Failed
        ==> databases.last().committed.commands.dom().contains(key)
    &&& meanwhile(stores, actions, key)
    &&& stores[0] == databases.last().committed
    &&& stores.last() == later_databases[0].committed
}

/// Whether no pruning, by others or by the run's own steps, reaches a command.
pub open spec fn is_retained<S, R, E>(
    store: Store,
    key: CommandKeyView,
    actions: Seq<(Action, int)>,
    steps: Seq<Step<S, R, E>>,
    receipt_ttl_seconds: u64,
) -> bool {
    store.commands[key].completed_at matches Some(time) ==> {
        &&& within_retention(actions, time)
        &&& forall|i: int|
            0 <= i < steps.len() ==> time >= (#[trigger] steps[i]).now.unix_nanos
                - receipt_ttl_seconds * 1_000_000_000
    }
}

/// Whether no pruning by others reaches a command.
pub open spec fn is_kept_meanwhile(
    store: Store,
    key: CommandKeyView,
    actions: Seq<(Action, int)>,
) -> bool {
    store.commands[key].completed_at matches Some(time) ==> within_retention(actions, time)
}

proof fn pruning_spares_the_command<S, R, E>(
    left: Store,
    before: Store,
    key: CommandKeyView,
    actions: Seq<(Action, int)>,
    steps: Seq<Step<S, R, E>>,
    receipt_ttl_seconds: u64,
    base: Store,
)
    requires
        before.commands.dom().contains(key),
        before.commands[key] == left.commands[key],
        is_retained(left, key, actions, steps, receipt_ttl_seconds),
        prunes(before, steps, receipt_ttl_seconds, base),
    ensures
        base.commands.dom().contains(key),
        base.commands[key] == before.commands[key],
{
    if steps.len() > 1 {
        let step = steps[1];
    }
}

proof fn begin_registration_again(
    active: ActiveView,
    earlier: begin_registration::Task,
    later: begin_registration::Task,
    before: Store,
    left: Store,
    kept: Store,
    after: Store,
    told_earlier: Heard,
    told_later: Heard,
    first: begin_registration::Next,
    second: begin_registration::Next,
)
    requires
        !before.commands.dom().contains(earlier.key@),
        registration_challenge::begin_outcome(
            active,
            earlier,
            before,
            left,
            i128::MIN as int,
            i128::MAX as int,
            told_earlier,
            first,
        ),
        waiting(first) is None,
        kept.commands.dom().contains(earlier.key@),
        kept.commands[earlier.key@] == left.commands[earlier.key@],
        left.commands.dom().contains(earlier.key@),
        later.key@ == earlier.key@,
        registration_challenge::begin_outcome(
            active,
            later,
            kept,
            after,
            i128::MIN as int,
            i128::MAX as int,
            told_later,
            second,
        ),
        waiting(second) is None,
    ensures
        answered_again(
            later.intent@ == earlier.intent@,
            told_earlier,
            told_later,
            left.commands[earlier.key@],
            begin_registration::refused(left.commands[earlier.key@].code->0),
            first,
            second,
            BeginRegistrationError::IdempotencyConflict,
            BeginRegistrationError::OperationInProgress,
        ),
        after == kept,
{
}

/// A registration that is begun again, by its caller and under its key, is answered as the
/// first call was, whatever others did meanwhile and within the retention time; it changes nothing
/// but what it prunes.
pub proof fn registrations_begun_are_answered_again(
    active: ActiveView,
    context: InvocationContext,
    request: BeginRegistrationRequest,
    request_json: Seq<u8>,
    now: Timestamp,
    first: begin_registration::Next,
    steps: Seq<registration_challenge::BeginStep>,
    databases: Seq<Database>,
    stores: Seq<Store>,
    actions: Seq<(Action, int)>,
    later_context: InvocationContext,
    later_request: BeginRegistrationRequest,
    later_json: Seq<u8>,
    later: Timestamp,
    again: begin_registration::Next,
    later_steps: Seq<registration_challenge::BeginStep>,
    later_databases: Seq<Database>,
    run: begin_registration::BeginRegistration,
    later_run: begin_registration::BeginRegistration,
)
    requires
        active.config.keeps_limits(),
        begin_registration::starts(active, context, request, request_json, now, first),
        registration_challenge::begin_run(active, first, steps),
        waiting(first) == Some(run),
        begin_registration::starts(active, later_context, later_request, later_json, later, again),
        registration_challenge::begin_run(active, again, later_steps),
        waiting(again) == Some(later_run),
        calling_instance(later_context) == calling_instance(context),
        later_request.idempotency_key == request.idempotency_key,
        follows(
            run.task.key@,
            first,
            steps,
            databases,
            stores,
            actions,
            again,
            later_steps,
            later_databases,
        ),
        forall|i: int|
            0 <= i < steps.len() ==> (#[trigger] steps[i]).now.reaches(
                active.config.challenge_ttl_seconds as int,
            ),
        forall|i: int|
            0 <= i < later_steps.len() ==> (#[trigger] later_steps[i]).now.reaches(
                active.config.challenge_ttl_seconds as int,
            ),
        is_retained(
            databases.last().committed,
            run.task.key@,
            actions,
            later_steps,
            active.config.receipt_ttl_seconds,
        ),
    ensures
        answered_again(
            sha256(later_json) == sha256(request_json),
            heard(steps),
            heard(later_steps),
            databases.last().committed.commands[run.task.key@],
            begin_registration::refused(databases.last().committed.commands[run.task.key@].code->0),
            after_steps(first, steps, steps.len() as int),
            after_steps(again, later_steps, later_steps.len() as int),
            BeginRegistrationError::IdempotencyConflict,
            BeginRegistrationError::OperationInProgress,
        ),
        later_databases.last().committed == after_pruning(later_databases),
        prunes(
            later_databases[0].committed,
            later_steps,
            active.config.receipt_ttl_seconds,
            after_pruning(later_databases),
        ),
{
    let key = run.task.key@;
    let ttl = active.config.receipt_ttl_seconds;
    registration_challenge::beginnings_do_as_they_tell(
        active,
        context,
        request,
        request_json,
        now,
        first,
        steps,
        databases,
        i128::MIN as int,
        i128::MAX as int,
    );
    registration_challenge::beginnings_do_as_they_tell(
        active,
        later_context,
        later_request,
        later_json,
        later,
        again,
        later_steps,
        later_databases,
        i128::MIN as int,
        i128::MAX as int,
    );
    commands_stay_meanwhile(stores, actions, key);
    pruning_spares_the_command(
        databases.last().committed,
        later_databases[0].committed,
        key,
        actions,
        later_steps,
        ttl,
        after_pruning(later_databases),
    );
    begin_registration_again(
        active,
        run.task,
        later_run.task,
        after_pruning(databases),
        databases.last().committed,
        after_pruning(later_databases),
        later_databases.last().committed,
        heard(steps),
        heard(later_steps),
        after_steps(first, steps, steps.len() as int),
        after_steps(again, later_steps, later_steps.len() as int),
    );
}

proof fn begin_authentication_again(
    active: ActiveView,
    earlier: begin_authentication::Task,
    later: begin_authentication::Task,
    before: Store,
    left: Store,
    kept: Store,
    after: Store,
    told_earlier: Heard,
    told_later: Heard,
    first: begin_authentication::Next,
    second: begin_authentication::Next,
)
    requires
        !before.commands.dom().contains(earlier.key@),
        authentication_challenge::begin_outcome(
            active,
            earlier,
            before,
            left,
            i128::MIN as int,
            i128::MAX as int,
            told_earlier,
            first,
        ),
        waiting(first) is None,
        kept.commands.dom().contains(earlier.key@),
        kept.commands[earlier.key@] == left.commands[earlier.key@],
        left.commands.dom().contains(earlier.key@),
        later.key@ == earlier.key@,
        authentication_challenge::begin_outcome(
            active,
            later,
            kept,
            after,
            i128::MIN as int,
            i128::MAX as int,
            told_later,
            second,
        ),
        waiting(second) is None,
    ensures
        answered_again(
            later.intent@ == earlier.intent@,
            told_earlier,
            told_later,
            left.commands[earlier.key@],
            begin_authentication::refused(left.commands[earlier.key@].code->0),
            first,
            second,
            BeginAuthenticationError::IdempotencyConflict,
            BeginAuthenticationError::OperationInProgress,
        ),
        after == kept,
{
}

/// An authentication that is begun again, by its caller and under its key, is answered as the
/// first call was, whatever others did meanwhile and within the retention time; it changes nothing
/// but what it prunes.
pub proof fn authentications_begun_are_answered_again(
    active: ActiveView,
    context: InvocationContext,
    request: BeginAuthenticationRequest,
    request_json: Seq<u8>,
    first: begin_authentication::Next,
    steps: Seq<authentication_challenge::BeginStep>,
    databases: Seq<Database>,
    stores: Seq<Store>,
    actions: Seq<(Action, int)>,
    later_context: InvocationContext,
    later_request: BeginAuthenticationRequest,
    later_json: Seq<u8>,
    again: begin_authentication::Next,
    later_steps: Seq<authentication_challenge::BeginStep>,
    later_databases: Seq<Database>,
    run: begin_authentication::BeginAuthentication,
    later_run: begin_authentication::BeginAuthentication,
)
    requires
        active.config.keeps_limits(),
        begin_authentication::starts(active, context, request, request_json, first),
        authentication_challenge::begin_run(active, first, steps),
        waiting(first) == Some(run),
        begin_authentication::starts(active, later_context, later_request, later_json, again),
        authentication_challenge::begin_run(active, again, later_steps),
        waiting(again) == Some(later_run),
        calling_instance(later_context) == calling_instance(context),
        later_request.idempotency_key == request.idempotency_key,
        follows(
            run.task.key@,
            first,
            steps,
            databases,
            stores,
            actions,
            again,
            later_steps,
            later_databases,
        ),
        forall|i: int|
            0 <= i < steps.len() ==> (#[trigger] steps[i]).now.reaches(
                active.config.challenge_ttl_seconds as int,
            ),
        forall|i: int|
            0 <= i < later_steps.len() ==> (#[trigger] later_steps[i]).now.reaches(
                active.config.challenge_ttl_seconds as int,
            ),
        is_retained(
            databases.last().committed,
            run.task.key@,
            actions,
            later_steps,
            active.config.receipt_ttl_seconds,
        ),
    ensures
        answered_again(
            sha256(later_json) == sha256(request_json),
            heard(steps),
            heard(later_steps),
            databases.last().committed.commands[run.task.key@],
            begin_authentication::refused(databases.last().committed.commands[run.task.key@].code->0),
            after_steps(first, steps, steps.len() as int),
            after_steps(again, later_steps, later_steps.len() as int),
            BeginAuthenticationError::IdempotencyConflict,
            BeginAuthenticationError::OperationInProgress,
        ),
        later_databases.last().committed == after_pruning(later_databases),
        prunes(
            later_databases[0].committed,
            later_steps,
            active.config.receipt_ttl_seconds,
            after_pruning(later_databases),
        ),
{
    let key = run.task.key@;
    let ttl = active.config.receipt_ttl_seconds;
    authentication_challenge::beginnings_do_as_they_tell(
        active,
        context,
        request,
        request_json,
        first,
        steps,
        databases,
        i128::MIN as int,
        i128::MAX as int,
    );
    authentication_challenge::beginnings_do_as_they_tell(
        active,
        later_context,
        later_request,
        later_json,
        again,
        later_steps,
        later_databases,
        i128::MIN as int,
        i128::MAX as int,
    );
    commands_stay_meanwhile(stores, actions, key);
    pruning_spares_the_command(
        databases.last().committed,
        later_databases[0].committed,
        key,
        actions,
        later_steps,
        ttl,
        after_pruning(later_databases),
    );
    begin_authentication_again(
        active,
        run.task,
        later_run.task,
        after_pruning(databases),
        databases.last().committed,
        after_pruning(later_databases),
        later_databases.last().committed,
        heard(steps),
        heard(later_steps),
        after_steps(first, steps, steps.len() as int),
        after_steps(again, later_steps, later_steps.len() as int),
    );
}

proof fn finish_registration_again(
    active: ActiveView,
    earlier: finish_registration::Task,
    later: finish_registration::Task,
    before: Store,
    left: Store,
    kept: Store,
    after: Store,
    told_earlier: Heard,
    told_later: Heard,
    first: finish_registration::Next,
    second: finish_registration::Next,
)
    requires
        !before.commands.dom().contains(earlier.key@),
        registration_outcome(
            active,
            earlier,
            before,
            left,
            i128::MIN as int,
            i128::MAX as int,
            told_earlier,
            first,
        ),
        waiting(first) is None,
        kept.commands.dom().contains(earlier.key@),
        kept.commands[earlier.key@] == left.commands[earlier.key@],
        left.commands.dom().contains(earlier.key@),
        later.key@ == earlier.key@,
        registration_outcome(
            active,
            later,
            kept,
            after,
            i128::MIN as int,
            i128::MAX as int,
            told_later,
            second,
        ),
        waiting(second) is None,
    ensures
        answered_again(
            later.intent@ == earlier.intent@,
            told_earlier,
            told_later,
            left.commands[earlier.key@],
            finish_registration::refused(left.commands[earlier.key@].code->0),
            first,
            second,
            FinishRegistrationError::IdempotencyConflict,
            FinishRegistrationError::OperationInProgress,
        ),
        after == kept,
{
}

/// A registration that is finished again, by its caller and under its key, is answered as the
/// first call was, whatever others did meanwhile and within the retention time; it changes nothing.
pub proof fn registrations_are_answered_again(
    active: ActiveView,
    context: InvocationContext,
    request: FinishRegistrationRequest,
    request_json: Seq<u8>,
    now: Timestamp,
    first: finish_registration::Next,
    steps: Seq<RegistrationStep>,
    databases: Seq<Database>,
    stores: Seq<Store>,
    actions: Seq<(Action, int)>,
    later_context: InvocationContext,
    later_request: FinishRegistrationRequest,
    later_json: Seq<u8>,
    later: Timestamp,
    again: finish_registration::Next,
    later_steps: Seq<RegistrationStep>,
    later_databases: Seq<Database>,
    run: finish_registration::FinishRegistration,
    later_run: finish_registration::FinishRegistration,
)
    requires
        finish_registration::starts(active, context, request, request_json, now, first),
        registration_run(active, first, steps),
        waiting(first) == Some(run),
        finish_registration::starts(active, later_context, later_request, later_json, later, again),
        registration_run(active, again, later_steps),
        waiting(again) == Some(later_run),
        calling_instance(later_context) == calling_instance(context),
        later_request.idempotency_key == request.idempotency_key,
        follows(
            run.task.key@,
            first,
            steps,
            databases,
            stores,
            actions,
            again,
            later_steps,
            later_databases,
        ),
        is_kept_meanwhile(databases.last().committed, run.task.key@, actions),
    ensures
        answered_again(
            sha256(later_json) == sha256(request_json),
            heard(steps),
            heard(later_steps),
            databases.last().committed.commands[run.task.key@],
            finish_registration::refused(databases.last().committed.commands[run.task.key@].code->0),
            after_steps(first, steps, steps.len() as int),
            after_steps(again, later_steps, later_steps.len() as int),
            FinishRegistrationError::IdempotencyConflict,
            FinishRegistrationError::OperationInProgress,
        ),
        later_databases.last().committed == later_databases[0].committed,
{
    let key = run.task.key@;
    registrations_do_as_they_tell(
        active,
        context,
        request,
        request_json,
        now,
        first,
        steps,
        databases,
        i128::MIN as int,
        i128::MAX as int,
    );
    registrations_do_as_they_tell(
        active,
        later_context,
        later_request,
        later_json,
        later,
        again,
        later_steps,
        later_databases,
        i128::MIN as int,
        i128::MAX as int,
    );
    commands_stay_meanwhile(stores, actions, key);
    finish_registration_again(
        active,
        run.task,
        later_run.task,
        databases[0].committed,
        databases.last().committed,
        later_databases[0].committed,
        later_databases.last().committed,
        heard(steps),
        heard(later_steps),
        after_steps(first, steps, steps.len() as int),
        after_steps(again, later_steps, later_steps.len() as int),
    );
}

proof fn finish_authentication_again(
    active: ActiveView,
    earlier: finish_authentication::Task,
    later: finish_authentication::Task,
    before: Store,
    left: Store,
    kept: Store,
    after: Store,
    told_earlier: Heard,
    told_later: Heard,
    asked_earlier: nat,
    asked_later: nat,
    first: finish_authentication::Next,
    second: finish_authentication::Next,
)
    requires
        !before.commands.dom().contains(earlier.key@),
        authentication_outcome(
            active,
            earlier,
            before,
            left,
            i128::MIN as int,
            i128::MAX as int,
            told_earlier,
            asked_earlier,
            first,
        ),
        waiting(first) is None,
        kept.commands.dom().contains(earlier.key@),
        kept.commands[earlier.key@] == left.commands[earlier.key@],
        left.commands.dom().contains(earlier.key@),
        later.key@ == earlier.key@,
        authentication_outcome(
            active,
            later,
            kept,
            after,
            i128::MIN as int,
            i128::MAX as int,
            told_later,
            asked_later,
            second,
        ),
        waiting(second) is None,
    ensures
        answered_again(
            later.intent@ == earlier.intent@,
            told_earlier,
            told_later,
            left.commands[earlier.key@],
            finish_authentication::refused(left.commands[earlier.key@].code->0),
            first,
            second,
            FinishAuthenticationError::IdempotencyConflict,
            FinishAuthenticationError::OperationInProgress,
        ),
        after == kept,
        asked_later == 0,
        asked_earlier == 1 && first is Failed ==> kept.commands[later.key@].status is Issuing
            || told_earlier.fault is Some && !kept.commands[later.key@].is_open(),
{
}

/// An authentication that is finished again, by its caller and under its key, is answered as the
/// first call was, whatever others did meanwhile and within the retention time; it changes nothing.
/// It asks for no session.
pub proof fn authentications_are_answered_again(
    active: ActiveView,
    context: InvocationContext,
    request: FinishAuthenticationRequest,
    request_json: Seq<u8>,
    first: finish_authentication::Next,
    steps: Seq<AuthenticationStep>,
    databases: Seq<Database>,
    stores: Seq<Store>,
    actions: Seq<(Action, int)>,
    later_context: InvocationContext,
    later_request: FinishAuthenticationRequest,
    later_json: Seq<u8>,
    again: finish_authentication::Next,
    later_steps: Seq<AuthenticationStep>,
    later_databases: Seq<Database>,
    run: finish_authentication::FinishAuthentication,
    later_run: finish_authentication::FinishAuthentication,
)
    requires
        finish_authentication::starts(active, context, request, request_json, first),
        authentication_run(active, first, steps),
        waiting(first) == Some(run),
        finish_authentication::starts(active, later_context, later_request, later_json, again),
        authentication_run(active, again, later_steps),
        waiting(again) == Some(later_run),
        calling_instance(later_context) == calling_instance(context),
        later_request.idempotency_key == request.idempotency_key,
        follows(
            run.task.key@,
            first,
            steps,
            databases,
            stores,
            actions,
            again,
            later_steps,
            later_databases,
        ),
        is_kept_meanwhile(databases.last().committed, run.task.key@, actions),
    ensures
        answered_again(
            sha256(later_json) == sha256(request_json),
            heard(steps),
            heard(later_steps),
            databases.last().committed.commands[run.task.key@],
            finish_authentication::refused(databases.last().committed.commands[run.task.key@].code->0),
            after_steps(first, steps, steps.len() as int),
            after_steps(again, later_steps, later_steps.len() as int),
            FinishAuthenticationError::IdempotencyConflict,
            FinishAuthenticationError::OperationInProgress,
        ),
        later_databases.last().committed == later_databases[0].committed,
        sessions_asked(again, later_steps, later_steps.len() as int) == 0,
{
    let key = run.task.key@;
    authentications_do_as_they_tell(
        active,
        context,
        request,
        request_json,
        first,
        steps,
        databases,
        i128::MIN as int,
        i128::MAX as int,
    );
    authentications_do_as_they_tell(
        active,
        later_context,
        later_request,
        later_json,
        again,
        later_steps,
        later_databases,
        i128::MIN as int,
        i128::MAX as int,
    );
    commands_stay_meanwhile(stores, actions, key);
    finish_authentication_again(
        active,
        run.task,
        later_run.task,
        databases[0].committed,
        databases.last().committed,
        later_databases[0].committed,
        later_databases.last().committed,
        heard(steps),
        heard(later_steps),
        sessions_asked(first, steps, steps.len() as int),
        sessions_asked(again, later_steps, later_steps.len() as int),
        after_steps(first, steps, steps.len() as int),
        after_steps(again, later_steps, later_steps.len() as int),
    );
}

/// An authentication that failed after it asked for a session stays at issuing, however much later
/// it is repeated, unless what failed completed the command nevertheless. While it is at issuing,
/// the repeat is told that the operation is in progress, unless an action of it failed. In any case
/// it asks for no session and changes nothing.
pub proof fn ambiguous_issues_stay_in_progress(
    active: ActiveView,
    context: InvocationContext,
    request: FinishAuthenticationRequest,
    request_json: Seq<u8>,
    first: finish_authentication::Next,
    steps: Seq<AuthenticationStep>,
    databases: Seq<Database>,
    stores: Seq<Store>,
    actions: Seq<(Action, int)>,
    later_context: InvocationContext,
    later_request: FinishAuthenticationRequest,
    later_json: Seq<u8>,
    again: finish_authentication::Next,
    later_steps: Seq<AuthenticationStep>,
    later_databases: Seq<Database>,
    run: finish_authentication::FinishAuthentication,
    later_run: finish_authentication::FinishAuthentication,
)
    requires
        finish_authentication::starts(active, context, request, request_json, first),
        authentication_run(active, first, steps),
        waiting(first) == Some(run),
        finish_authentication::starts(active, later_context, later_request, later_json, again),
        authentication_run(active, again, later_steps),
        waiting(again) == Some(later_run),
        calling_instance(later_context) == calling_instance(context),
        later_request.idempotency_key == request.idempotency_key,
        follows(
            run.task.key@,
            first,
            steps,
            databases,
            stores,
            actions,
            again,
            later_steps,
            later_databases,
        ),
        is_kept_meanwhile(databases.last().committed, run.task.key@, actions),
        sessions_asked(first, steps, steps.len() as int) == 1,
        after_steps(first, steps, steps.len() as int) is Failed,
        sha256(later_json) == sha256(request_json),
    ensures
        later_databases.last().committed == later_databases[0].committed,
        sessions_asked(again, later_steps, later_steps.len() as int) == 0,
        ({
            let store = later_databases.last().committed;
            let record = store.commands[run.task.key@];
            let last = after_steps(again, later_steps, later_steps.len() as int);
            &&& store.commands.dom().contains(run.task.key@)
            &&& record.status is Issuing || heard(steps).fault is Some && !record.is_open()
            &&& record.status is Issuing && heard(later_steps).fault is None ==> last
                == finish_authentication::finished(FinishAuthenticationError::OperationInProgress)
        }),
{
    let key = run.task.key@;
    authentications_do_as_they_tell(
        active,
        context,
        request,
        request_json,
        first,
        steps,
        databases,
        i128::MIN as int,
        i128::MAX as int,
    );
    authentications_do_as_they_tell(
        active,
        later_context,
        later_request,
        later_json,
        again,
        later_steps,
        later_databases,
        i128::MIN as int,
        i128::MAX as int,
    );
    commands_stay_meanwhile(stores, actions, key);
    finish_authentication_again(
        active,
        run.task,
        later_run.task,
        databases[0].committed,
        databases.last().committed,
        later_databases[0].committed,
        later_databases.last().committed,
        heard(steps),
        heard(later_steps),
        sessions_asked(first, steps, steps.len() as int),
        sessions_asked(again, later_steps, later_steps.len() as int),
        after_steps(first, steps, steps.len() as int),
        after_steps(again, later_steps, later_steps.len() as int),
    );
}

proof fn revoke_passkey_again(
    active: ActiveView,
    earlier: revoke_passkey::Task,
    later: revoke_passkey::Task,
    before: Store,
    left: Store,
    kept: Store,
    after: Store,
    told_earlier: Heard,
    told_later: Heard,
    first: revoke_passkey::Next,
    second: revoke_passkey::Next,
)
    requires
        !before.commands.dom().contains(earlier.key@),
        revocation_outcome(
            active,
            earlier,
            before,
            left,
            told_earlier,
            first,
        ),
        waiting(first) is None,
        kept.commands.dom().contains(earlier.key@),
        kept.commands[earlier.key@] == left.commands[earlier.key@],
        left.commands.dom().contains(earlier.key@),
        later.key@ == earlier.key@,
        revocation_outcome(
            active,
            later,
            kept,
            after,
            told_later,
            second,
        ),
        waiting(second) is None,
    ensures
        answered_again(
            later.intent@ == earlier.intent@,
            told_earlier,
            told_later,
            left.commands[earlier.key@],
            revoke_passkey::refused(left.commands[earlier.key@].code->0),
            first,
            second,
            RevokePasskeyError::IdempotencyConflict,
            RevokePasskeyError::OperationInProgress,
        ),
        after == kept,
{
}

/// A revocation that is repeated, by its caller and under its key, is answered as the
/// first call was, whatever others did meanwhile and within the retention time; it changes nothing.
pub proof fn revocations_are_answered_again(
    active: ActiveView,
    context: InvocationContext,
    request: RevokePasskeyRequest,
    request_json: Seq<u8>,
    now: Timestamp,
    first: revoke_passkey::Next,
    steps: Seq<RevocationStep>,
    databases: Seq<Database>,
    stores: Seq<Store>,
    actions: Seq<(Action, int)>,
    later_context: InvocationContext,
    later_request: RevokePasskeyRequest,
    later_json: Seq<u8>,
    later: Timestamp,
    again: revoke_passkey::Next,
    later_steps: Seq<RevocationStep>,
    later_databases: Seq<Database>,
    run: revoke_passkey::RevokePasskey,
    later_run: revoke_passkey::RevokePasskey,
)
    requires
        revoke_passkey::starts(active, context, request, request_json, now, first),
        revocation_run(active, first, steps),
        waiting(first) == Some(run),
        revoke_passkey::starts(active, later_context, later_request, later_json, later, again),
        revocation_run(active, again, later_steps),
        waiting(again) == Some(later_run),
        calling_instance(later_context) == calling_instance(context),
        later_request.idempotency_key == request.idempotency_key,
        follows(
            run.task.key@,
            first,
            steps,
            databases,
            stores,
            actions,
            again,
            later_steps,
            later_databases,
        ),
        is_kept_meanwhile(databases.last().committed, run.task.key@, actions),
    ensures
        answered_again(
            sha256(later_json) == sha256(request_json),
            heard(steps),
            heard(later_steps),
            databases.last().committed.commands[run.task.key@],
            revoke_passkey::refused(databases.last().committed.commands[run.task.key@].code->0),
            after_steps(first, steps, steps.len() as int),
            after_steps(again, later_steps, later_steps.len() as int),
            RevokePasskeyError::IdempotencyConflict,
            RevokePasskeyError::OperationInProgress,
        ),
        later_databases.last().committed == later_databases[0].committed,
{
    let key = run.task.key@;
    revocations_do_as_they_tell(
        active,
        context,
        request,
        request_json,
        now,
        first,
        steps,
        databases,
    );
    revocations_do_as_they_tell(
        active,
        later_context,
        later_request,
        later_json,
        later,
        again,
        later_steps,
        later_databases,
    );
    commands_stay_meanwhile(stores, actions, key);
    revoke_passkey_again(
        active,
        run.task,
        later_run.task,
        databases[0].committed,
        databases.last().committed,
        later_databases[0].committed,
        later_databases.last().committed,
        heard(steps),
        heard(later_steps),
        after_steps(first, steps, steps.len() as int),
        after_steps(again, later_steps, later_steps.len() as int),
    );
}

} // verus!
