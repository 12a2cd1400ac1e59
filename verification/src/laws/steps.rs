//! What single steps do, whatever else goes on: one command is performed by one run, only what is
//! confirmed is answered, and only what is needed is asked.

use lenso_kernel::InvocationContext;
use vstd::prelude::*;

use crate::active::{ActivePasskey, ActiveView};
use crate::authenticated::UpdateStage;
use crate::challenge::{
    check_authentication_challenge, check_registration_challenge, ConsumeStage,
};
use crate::command::{CommandStatus, ReceiptCode};
use crate::contract::{
    BeginAuthenticationRequest, BeginRegistrationRequest, FinishAuthenticationError,
    FinishAuthenticationRequest, FinishRegistrationError, FinishRegistrationRequest,
    ListPasskeysRequest, RevokePasskeyRequest,
};
use crate::failure::Failure;
use crate::instant::Timestamp;
use crate::rows::ChallengeRow;
use crate::storage::{Action, Progress, Reply};
use crate::{
    begin_authentication, begin_registration, finish_authentication, finish_registration,
    list_passkeys, revoke_passkey,
};

verus! {

/// A challenge is of use to a registration exactly where it is of its caller, subject and revision,
/// was not consumed, and has not expired; otherwise the first of these is told.
pub proof fn challenges_are_of_use_to_their_request(
    challenge: &ChallengeRow,
    caller: &str,
    subject: &str,
    expected_revision: i64,
    now: Timestamp,
    r: Option<ReceiptCode>,
)
    ensures
        call_ensures(
            check_registration_challenge,
            (challenge, caller, subject, expected_revision, now),
            r,
        ) ==> r == (if challenge.caller_instance@ != caller@ || challenge.subject@ != subject@
            || challenge.expected_revision != expected_revision {
            Some(ReceiptCode::InvalidRequest)
        } else if challenge.consumed_at is Some {
            Some(ReceiptCode::ChallengeUsed)
        } else if now.unix_nanos >= challenge.expires_at.unix_nanos {
            Some(ReceiptCode::ChallengeExpired)
        } else {
            None
        }),
        call_ensures(check_authentication_challenge, (challenge, caller, now), r) ==> r == (
        if challenge.caller_instance@ != caller@ {
            Some(ReceiptCode::InvalidRequest)
        } else if challenge.consumed_at is Some {
            Some(ReceiptCode::ChallengeUsed)
        } else if now.unix_nanos >= challenge.expires_at.unix_nanos {
            Some(ReceiptCode::ChallengeExpired)
        } else {
            None
        }),
{
}

/// A run of begin-registration goes on only with a command that it reserved itself; one that is
/// there is looked at. What could not be completed is a failure.
pub proof fn begin_registration_performs_only_its_own_command(
    active: ActiveView,
    run: begin_registration::BeginRegistration,
    changed: u64,
    now: Timestamp,
    next: begin_registration::Next,
)
    requires
        begin_registration::advances(active, run, Reply::Affected(changed), now, next),
    ensures
        run.stage is Reserving ==> {
            if changed == 1 {
                next matches Progress::Act(later, Action::ReadDirectory { subject })
                    && later.task == run.task && subject == run.task.request.subject
            } else {
                next matches Progress::Act(later, Action::LoadCommand { key }) && later.task
                    == run.task && key == run.task.key
            }
        },
        (run.stage is Completing || run.stage is Recording) && changed != 1 ==> next is Failed,
{
}

/// A run of begin-registration answers a success only once it was told that its transaction was
/// committed, and replays one only from a stored command. It stays with its task, and asks for no
/// session.
pub proof fn begin_registration_answers_only_what_was_committed(
    active: ActiveView,
    run: begin_registration::BeginRegistration,
    reply: Reply,
    now: Timestamp,
    next: begin_registration::Next,
)
    requires
        begin_registration::advances(active, run, reply, now, next),
    ensures
        next matches Progress::Finished(Ok(response)) ==> reply is Done && run.stage
            == begin_registration::Stage::Committing(response),
        next is Replay ==> run.stage is Loading && reply is Command,
        next matches Progress::Act(later, _) ==> later.task == run.task,
        next matches Progress::Encode(later, _) ==> later.task == run.task,
        next matches Progress::Act(_, Action::ReadDirectory { subject }) ==> subject
            == run.task.request.subject,
        next matches Progress::Act(_, action) ==> action !is IssueSession,
{
}

/// A run of begin-authentication goes on only with a command that it reserved itself; one that is
/// there is looked at. What could not be completed is a failure.
pub proof fn begin_authentication_performs_only_its_own_command(
    active: ActiveView,
    run: begin_authentication::BeginAuthentication,
    changed: u64,
    now: Timestamp,
    next: begin_authentication::Next,
)
    requires
        begin_authentication::advances(active, run, Reply::Affected(changed), now, next),
    ensures
        run.stage is Reserving ==> {
            if changed == 1 {
                next matches Progress::Act(later, Action::ReadDirectory { subject })
                    && later.task == run.task && subject == run.task.request.subject
            } else {
                next matches Progress::Act(later, Action::LoadCommand { key }) && later.task
                    == run.task && key == run.task.key
            }
        },
        (run.stage is Completing || run.stage is Recording) && changed != 1 ==> next is Failed,
{
}

/// A run of begin-authentication answers a success only once it was told that its transaction was
/// committed, and replays one only from a stored command. It stays with its task, and asks for no
/// session.
pub proof fn begin_authentication_answers_only_what_was_committed(
    active: ActiveView,
    run: begin_authentication::BeginAuthentication,
    reply: Reply,
    now: Timestamp,
    next: begin_authentication::Next,
)
    requires
        begin_authentication::advances(active, run, reply, now, next),
    ensures
        next matches Progress::Finished(Ok(response)) ==> reply is Done && run.stage
            == begin_authentication::Stage::Committing(response),
        next is Replay ==> run.stage is Loading && reply is Command,
        next matches Progress::Act(later, _) ==> later.task == run.task,
        next matches Progress::Encode(later, _) ==> later.task == run.task,
        next matches Progress::Act(_, Action::ReadDirectory { subject }) ==> subject
            == run.task.request.subject,
        next matches Progress::Act(_, action) ==> action !is IssueSession,
{
}

/// A run of finish-registration goes on only with a command that it reserved itself; one that is
/// there is looked at. A command that another run has moved on is in progress. What could not be
/// completed is a failure.
pub proof fn finish_registration_performs_only_its_own_command(
    active: ActiveView,
    run: finish_registration::FinishRegistration,
    changed: u64,
    now: Timestamp,
    next: finish_registration::Next,
)
    requires
        finish_registration::advances(active, run, Reply::Affected(changed), now, next),
    ensures
        run.stage is Reserving ==> {
            if changed == 1 {
                next matches Progress::Act(later, Action::SetCommandStatus { key, from, to })
                    && later.task == run.task && key == run.task.key && from
                    == CommandStatus::Reserved && to == CommandStatus::Verifying
            } else {
                next matches Progress::Act(later, Action::LoadCommand { key }) && later.task
                    == run.task && key == run.task.key
            }
        },
        run.stage is Verifying && changed != 1 ==> next == finish_registration::finished(
            FinishRegistrationError::OperationInProgress,
        ),
        (run.stage is Completing || run.stage is Recording) && changed != 1 ==> next is Failed,
{
}

/// A run of finish-registration answers a success only once it was told that its transaction was
/// committed, and replays one only from a stored command. It stays with its task, and asks for no
/// session.
pub proof fn finish_registration_answers_only_what_was_committed(
    active: ActiveView,
    run: finish_registration::FinishRegistration,
    reply: Reply,
    now: Timestamp,
    next: finish_registration::Next,
)
    requires
        finish_registration::advances(active, run, reply, now, next),
    ensures
        next matches Progress::Finished(Ok(response)) ==> reply is Done && run.stage
            == finish_registration::Stage::Committing(response),
        next is Replay ==> run.stage is Loading && reply is Command,
        next matches Progress::Act(later, _) ==> later.task == run.task,
        next matches Progress::Encode(later, _) ==> later.task == run.task,
        next matches Progress::Act(_, Action::ReadDirectory { subject }) ==> subject
            == run.task.request.subject,
        next matches Progress::Act(_, action) ==> action !is IssueSession,
{
}

/// A run of finish-authentication goes on only with a command that it reserved itself; one that is
/// there is looked at. A command that another run has moved on is in progress. What could not be
/// completed is a failure.
pub proof fn finish_authentication_performs_only_its_own_command(
    active: ActiveView,
    run: finish_authentication::FinishAuthentication,
    changed: u64,
    now: Timestamp,
    next: finish_authentication::Next,
)
    requires
        finish_authentication::advances(active, run, Reply::Affected(changed), now, next),
    ensures
        run.stage is Reserving ==> {
            if changed == 1 {
                next matches Progress::Act(later, Action::SetCommandStatus { key, from, to })
                    && later.task == run.task && key == run.task.key && from
                    == CommandStatus::Reserved && to == CommandStatus::Verifying
            } else {
                next matches Progress::Act(later, Action::LoadCommand { key }) && later.task
                    == run.task && key == run.task.key
            }
        },
        run.stage is Verifying && changed != 1 ==> next == finish_authentication::finished(
            FinishAuthenticationError::OperationInProgress,
        ),
        (run.stage matches finish_authentication::Stage::Updating { update, .. }
            && update is MarkingIssuing)
            && changed != 1 ==> (next matches Progress::Act(later, Action::Rollback { .. }) && (
        later.stage matches finish_authentication::Stage::Updating { update, .. }
            && update is Abandoning)),
        (run.stage is Completing || run.stage is Recording) && changed != 1 ==> next is Failed,
{
}

/// A run of finish-authentication answers a success only once it was told that its transaction was
/// committed, and replays one only from a stored command. It stays with its task.
pub proof fn finish_authentication_answers_only_what_was_committed(
    active: ActiveView,
    run: finish_authentication::FinishAuthentication,
    reply: Reply,
    now: Timestamp,
    next: finish_authentication::Next,
)
    requires
        finish_authentication::advances(active, run, reply, now, next),
    ensures
        next matches Progress::Finished(Ok(response)) ==> reply is Done && run.stage
            == finish_authentication::Stage::Committing(response),
        next is Replay ==> run.stage is Loading && reply is Command,
        next matches Progress::Act(later, _) ==> later.task == run.task,
        next matches Progress::Encode(later, _) ==> later.task == run.task,
        next matches Progress::Act(_, Action::ReadDirectory { subject }) ==> match run.stage {
            finish_authentication::Stage::Consuming(ConsumeStage::Consumed(challenge)) => subject@
                == challenge.subject@ && reply is Done,
            finish_authentication::Stage::Consuming(ConsumeStage::Spent(challenge)) => subject@
                == challenge.subject@ && reply is Done,
            _ => false,
        },
        next matches Progress::Act(_, Action::IssueSession(_)) ==> (run.stage matches
            finish_authentication::Stage::Updating { update, .. } && update is Committing
                && reply is Done),
        (run.stage matches finish_authentication::Stage::Updating { update, .. }
            && update is Abandoning)
            ==> next is Failed,
{
}

/// A run of revoke-passkey goes on only with a command that it reserved itself; one that is there
/// is looked at. What could not be completed is a failure.
pub proof fn revoke_passkey_performs_only_its_own_command(
    active: ActiveView,
    run: revoke_passkey::RevokePasskey,
    changed: u64,
    next: revoke_passkey::Next,
)
    requires
        revoke_passkey::advances(active, run, Reply::Affected(changed), next),
    ensures
        run.stage is Reserving ==> {
            if changed == 1 {
                next matches Progress::Act(later, Action::ReadDirectory { subject })
                    && later.task == run.task && subject == run.task.request.subject
            } else {
                next matches Progress::Act(later, Action::LoadCommand { key }) && later.task
                    == run.task && key == run.task.key
            }
        },
        (run.stage is Completing || run.stage is Recording) && changed != 1 ==> next is Failed,
{
}

/// A run of revoke-passkey answers a success only once it was told that its transaction was
/// committed, and replays one only from a stored command. It stays with its task, and asks for no
/// session.
pub proof fn revoke_passkey_answers_only_what_was_committed(
    active: ActiveView,
    run: revoke_passkey::RevokePasskey,
    reply: Reply,
    next: revoke_passkey::Next,
)
    requires
        revoke_passkey::advances(active, run, reply, next),
    ensures
        next matches Progress::Finished(Ok(response)) ==> reply is Done && run.stage
            == revoke_passkey::Stage::Committing(response),
        next is Replay ==> run.stage is Loading && reply is Command,
        next matches Progress::Act(later, _) ==> later.task == run.task,
        next matches Progress::Encode(later, _) ==> later.task == run.task,
        next matches Progress::Act(_, Action::ReadDirectory { subject }) ==> subject
            == run.task.request.subject,
        next matches Progress::Act(_, action) ==> action !is IssueSession,
{
}

/// The response that a run of begin-registration hands out for encoding is the one that it answers
/// once the sealed bytes are stored with its command and committed; and what it does is told by
/// name.
pub proof fn begin_registration_encodes_what_it_answers(
    active: ActiveView,
    run: begin_registration::BeginRegistration,
    reply: Reply,
    now: Timestamp,
    next: begin_registration::Next,
)
    requires
        begin_registration::advances(active, run, reply, now, next),
    ensures
        next matches Progress::Encode(
            later,
            response,
        ) ==> (later.stage matches begin_registration::Stage::Encoding(_, kept) && kept
            == response),
        (run.stage matches begin_registration::Stage::Encoding(
            challenge,
            response,
        ) && next is Act) ==> (
        next matches Progress::Act(later, Action::InsertChallenge(stored)) && stored
            == run.stage->Encoding_0 && (later.stage matches begin_registration::Stage::StoringChallenge(kept, _, _)
            && kept == run.stage->Encoding_1)),
        (run.stage matches begin_registration::Stage::StoringChallenge(response, nonce, ciphertext)
            && reply is Done) ==> (next matches Progress::Act(
            later,
            Action::CompleteSuccess { key, nonce, ciphertext },
        ) && key == run.task.key && nonce == run.stage->StoringChallenge_1 && ciphertext
            == run.stage->StoringChallenge_2 && later.stage
                == begin_registration::Stage::Completing(
            run.stage->StoringChallenge_0,
        )),
        run.stage is Completing && next is Act ==> (next matches Progress::Act(
            later,
            Action::Commit { .. },
        ) && later.stage == begin_registration::Stage::Committing(run.stage->Completing_0)),
        next matches Progress::Act(later, Action::Begin { label }) ==> (
        later.stage is Beginning ==> label@ == "begin registration challenge transaction"@),
        next matches Progress::Act(later, Action::Commit { label }) ==> (
        later.stage is Committing ==> label@ == "commit registration challenge"@),
{
}

/// The response that a run of begin-authentication hands out for encoding is the one that it
/// answers once the sealed bytes are stored with its command and committed; and what it does is
/// told by name.
pub proof fn begin_authentication_encodes_what_it_answers(
    active: ActiveView,
    run: begin_authentication::BeginAuthentication,
    reply: Reply,
    now: Timestamp,
    next: begin_authentication::Next,
)
    requires
        begin_authentication::advances(active, run, reply, now, next),
    ensures
        next matches Progress::Encode(
            later,
            response,
        ) ==> (later.stage matches begin_authentication::Stage::Encoding(_, kept) && kept
            == response),
        (run.stage matches begin_authentication::Stage::Encoding(
            challenge,
            response,
        ) && next is Act) ==> (
        next matches Progress::Act(later, Action::InsertChallenge(stored)) && stored
            == run.stage->Encoding_0 && (later.stage matches begin_authentication::Stage::StoringChallenge(kept, _, _)
            && kept == run.stage->Encoding_1)),
        (run.stage matches begin_authentication::Stage::StoringChallenge(
            response,
            nonce,
            ciphertext,
        )
            && reply is Done) ==> (next matches Progress::Act(
            later,
            Action::CompleteSuccess { key, nonce, ciphertext },
        ) && key == run.task.key && nonce == run.stage->StoringChallenge_1 && ciphertext
            == run.stage->StoringChallenge_2 && later.stage
                == begin_authentication::Stage::Completing(
            run.stage->StoringChallenge_0,
        )),
        run.stage is Completing && next is Act ==> (next matches Progress::Act(
            later,
            Action::Commit { .. },
        ) && later.stage == begin_authentication::Stage::Committing(run.stage->Completing_0)),
        next matches Progress::Act(later, Action::Begin { label }) ==> (
        later.stage is Beginning ==> label@ == "begin authentication challenge transaction"@),
        next matches Progress::Act(later, Action::Commit { label }) ==> (
        later.stage is Committing ==> label@ == "commit authentication challenge"@),
{
}

/// The response that a run of finish-registration hands out for encoding is the one that it answers
/// once the sealed bytes are stored with its command and committed; and what it does is told by
/// name.
pub proof fn finish_registration_encodes_what_it_answers(
    active: ActiveView,
    run: finish_registration::FinishRegistration,
    reply: Reply,
    now: Timestamp,
    next: finish_registration::Next,
)
    requires
        finish_registration::advances(active, run, reply, now, next),
    ensures
        next matches Progress::Encode(
            later,
            response,
        ) ==> (later.stage == finish_registration::Stage::Encoding(response)),
        run.stage is Encoding && next is Act ==> (next matches Progress::Act(
            later,
            Action::CompleteSuccess { key, .. },
        ) && key == run.task.key && later.stage == finish_registration::Stage::Completing(
            run.stage->Encoding_0,
        )),
        run.stage is Completing && next is Act ==> (next matches Progress::Act(
            later,
            Action::Commit { .. },
        ) && later.stage == finish_registration::Stage::Committing(run.stage->Completing_0)),
        next matches Progress::Act(later, Action::Begin { label }) ==> (
        later.stage is Beginning ==> label@ == "begin passkey registration transaction"@),
        next matches Progress::Act(later, Action::Commit { label }) ==> (
        later.stage is Committing ==> label@ == "commit passkey registration"@),
        next matches Progress::Act(_, Action::AdvanceSubject { label, .. }) ==> label@
            == "advance passkey collection revision"@,
{
}

/// The response that a run of finish-authentication hands out for encoding is the one that it
/// answers once the sealed bytes are stored with its command and committed; and what it does is
/// told by name.
pub proof fn finish_authentication_encodes_what_it_answers(
    active: ActiveView,
    run: finish_authentication::FinishAuthentication,
    reply: Reply,
    now: Timestamp,
    next: finish_authentication::Next,
)
    requires
        finish_authentication::advances(active, run, reply, now, next),
    ensures
        next matches Progress::Encode(
            later,
            response,
        ) ==> (later.stage == finish_authentication::Stage::Encoding(response)),
        (run.stage is Encoding && next is Act) ==> (next matches Progress::Act(later, _) && (
        later.stage matches finish_authentication::Stage::Beginning(kept, _, _) && kept
            == run.stage->Encoding_0)),
        run.stage is Beginning && reply is Done ==> (next matches Progress::Act(
            later,
            Action::CompleteSuccess { key, nonce, ciphertext },
        ) && key == run.task.key && nonce == run.stage->Beginning_1 && ciphertext
            == run.stage->Beginning_2 && later.stage == finish_authentication::Stage::Completing(
            run.stage->Beginning_0,
        )),
        run.stage is Completing && next is Act ==> (next matches Progress::Act(
            later,
            Action::Commit { .. },
        ) && later.stage == finish_authentication::Stage::Committing(run.stage->Completing_0)),
        next matches Progress::Act(later, Action::Begin { label }) ==> (
        later.stage is Beginning ==> label@ == "begin authentication receipt transaction"@),
        next matches Progress::Act(later, Action::Commit { label }) ==> (
        later.stage is Committing ==> label@ == "commit authentication receipt"@),
        next matches Progress::Act(_, Action::AdvanceSubject { label, .. }) ==> label@
            == "advance authenticated passkey collection revision"@,
{
}

/// The response that a run of revoke-passkey hands out for encoding is the one that it answers once
/// the sealed bytes are stored with its command and committed; and what it does is told by name.
pub proof fn revoke_passkey_encodes_what_it_answers(
    active: ActiveView,
    run: revoke_passkey::RevokePasskey,
    reply: Reply,
    next: revoke_passkey::Next,
)
    requires
        revoke_passkey::advances(active, run, reply, next),
    ensures
        next matches Progress::Encode(
            later,
            response,
        ) ==> (later.stage == revoke_passkey::Stage::Encoding(response)),
        run.stage is Encoding && next is Act ==> (next matches Progress::Act(
            later,
            Action::CompleteSuccess { key, .. },
        ) && key == run.task.key && later.stage == revoke_passkey::Stage::Completing(
            run.stage->Encoding_0,
        )),
        run.stage is Completing && next is Act ==> (next matches Progress::Act(
            later,
            Action::Commit { .. },
        ) && later.stage == revoke_passkey::Stage::Committing(run.stage->Completing_0)),
        next matches Progress::Act(later, Action::Begin { label }) ==> (
        later.stage is Beginning ==> label@ == "begin passkey revocation transaction"@),
        next matches Progress::Act(later, Action::Commit { label }) ==> (
        later.stage is Committing ==> label@ == "commit passkey revocation"@),
        next matches Progress::Act(_, Action::AdvanceSubject { label, .. }) ==> label@
            == "advance revoked passkey collection revision"@,
{
}

/// A listing asks the directory of its own subject, and for no session.
pub proof fn list_passkeys_asks_only_to_list(
    run: list_passkeys::ListPasskeys,
    reply: Reply,
    next: list_passkeys::Next,
)
    requires
        list_passkeys::advances(run, reply, next),
    ensures
        next !is Replay,
        next !is Encode,
        next matches Progress::Act(later, action) ==> {
            &&& later.request == run.request
            &&& action is LoadSubject || action is LoadPasskeys
            &&& action matches Action::LoadSubject { subject } ==> subject == run.request.subject
            &&& action matches Action::LoadPasskeys { subject, include_revoked } ==> subject
                == run.request.subject && include_revoked == run.request.include_revoked
        },
{
}

/// `start` and `resume` of begin-registration are what the laws speak of, and take whatever comes
/// while the clock can show the times.
pub proof fn begin_registration_is_what_the_laws_speak_of(
    active: &ActivePasskey,
    context: &InvocationContext,
    request: BeginRegistrationRequest,
    request_json: &[u8],
    now: Timestamp,
    run: begin_registration::BeginRegistration,
    reply: Reply,
    next: begin_registration::Next,
)
    ensures
        now.reaches(0) ==> call_requires(
            begin_registration::start,
            (active, context, request, request_json, now),
        ),
        call_ensures(begin_registration::start, (active, context, request, request_json, now), next)
            ==> begin_registration::starts(active@, *context, request, request_json@, now, next),
        now.reaches(active@.config.challenge_ttl_seconds as int) ==> call_requires(
            begin_registration::BeginRegistration::resume,
            (run, active, reply, now),
        ),
        call_ensures(begin_registration::BeginRegistration::resume, (run, active, reply, now), next)
            ==> begin_registration::advances(active@, run, reply, now, next),
{
}

/// `start` and `resume` of begin-authentication are what the laws speak of, and take whatever comes
/// while the clock can show the times.
pub proof fn begin_authentication_is_what_the_laws_speak_of(
    active: &ActivePasskey,
    context: &InvocationContext,
    request: BeginAuthenticationRequest,
    request_json: &[u8],
    now: Timestamp,
    run: begin_authentication::BeginAuthentication,
    reply: Reply,
    next: begin_authentication::Next,
)
    ensures
        call_requires(
            begin_authentication::start,
            (active, context, request, request_json),
        ),
        call_ensures(begin_authentication::start, (active, context, request, request_json), next)
            ==> begin_authentication::starts(active@, *context, request, request_json@, next),
        now.reaches(active@.config.challenge_ttl_seconds as int) ==> call_requires(
            begin_authentication::BeginAuthentication::resume,
            (run, active, reply, now),
        ),
        call_ensures(
            begin_authentication::BeginAuthentication::resume,
            (run, active, reply, now),
            next,
        )
            ==> begin_authentication::advances(active@, run, reply, now, next),
{
}

/// `start` and `resume` of finish-registration are what the laws speak of, and take whatever comes
/// while the clock can show the times.
pub proof fn finish_registration_is_what_the_laws_speak_of(
    active: &ActivePasskey,
    context: &InvocationContext,
    request: FinishRegistrationRequest,
    request_json: &[u8],
    now: Timestamp,
    run: finish_registration::FinishRegistration,
    reply: Reply,
    next: finish_registration::Next,
)
    ensures
        now.reaches(0) ==> call_requires(
            finish_registration::start,
            (active, context, request, request_json, now),
        ),
        call_ensures(
            finish_registration::start,
            (active, context, request, request_json, now),
            next,
        )
            ==> finish_registration::starts(active@, *context, request, request_json@, now, next),
        call_requires(
            finish_registration::FinishRegistration::resume,
            (run, active, reply, now),
        ),
        call_ensures(
            finish_registration::FinishRegistration::resume,
            (run, active, reply, now),
            next,
        )
            ==> finish_registration::advances(active@, run, reply, now, next),
{
}

/// `start` and `resume` of finish-authentication are what the laws speak of, and take whatever
/// comes while the clock can show the times.
pub proof fn finish_authentication_is_what_the_laws_speak_of(
    active: &ActivePasskey,
    context: &InvocationContext,
    request: FinishAuthenticationRequest,
    request_json: &[u8],
    now: Timestamp,
    run: finish_authentication::FinishAuthentication,
    reply: Reply,
    next: finish_authentication::Next,
)
    ensures
        call_requires(
            finish_authentication::start,
            (active, context, request, request_json),
        ),
        call_ensures(finish_authentication::start, (active, context, request, request_json), next)
            ==> finish_authentication::starts(active@, *context, request, request_json@, next),
        now.reaches(active@.config.session_ttl_seconds as int) ==> call_requires(
            finish_authentication::FinishAuthentication::resume,
            (run, active, reply, now),
        ),
        call_ensures(
            finish_authentication::FinishAuthentication::resume,
            (run, active, reply, now),
            next,
        )
            ==> finish_authentication::advances(active@, run, reply, now, next),
{
}

/// `start` and `resume` of revoke-passkey are what the laws speak of, and take whatever comes while
/// the clock can show the times.
pub proof fn revoke_passkey_is_what_the_laws_speak_of(
    active: &ActivePasskey,
    context: &InvocationContext,
    request: RevokePasskeyRequest,
    request_json: &[u8],
    now: Timestamp,
    run: revoke_passkey::RevokePasskey,
    reply: Reply,
    next: revoke_passkey::Next,
)
    ensures
        now.reaches(0) ==> call_requires(
            revoke_passkey::start,
            (active, context, request, request_json, now),
        ),
        call_ensures(revoke_passkey::start, (active, context, request, request_json, now), next)
            ==> revoke_passkey::starts(active@, *context, request, request_json@, now, next),
        call_requires(
            revoke_passkey::RevokePasskey::resume,
            (run, active, reply),
        ),
        call_ensures(revoke_passkey::RevokePasskey::resume, (run, active, reply), next)
            ==> revoke_passkey::advances(active@, run, reply, next),
{
}

/// `start` and `resume` of list-passkeys are what the laws speak of, and take whatever comes while
/// the clock can show the times.
pub proof fn list_passkeys_is_what_the_laws_speak_of(
    active: &ActivePasskey,
    context: &InvocationContext,
    request: ListPasskeysRequest,
    now: Timestamp,
    run: list_passkeys::ListPasskeys,
    reply: Reply,
    next: list_passkeys::Next,
)
    ensures
        now.reaches(0) ==> call_requires(
            list_passkeys::start,
            (active, context, request, now),
        ),
        call_ensures(list_passkeys::start, (active, context, request, now), next)
            ==> list_passkeys::starts(active@, *context, request, now, next),
        call_requires(
            list_passkeys::ListPasskeys::resume,
            (run, reply,),
        ),
        call_ensures(list_passkeys::ListPasskeys::resume, (run, reply,), next)
            ==> list_passkeys::advances(run, reply, next),
{
}

/// A subject that is new gets a user handle with the version and the variant of a random UUID, and
/// it is the subject of the request.
pub proof fn new_subjects_get_a_random_handle(
    active: ActiveView,
    run: begin_registration::BeginRegistration,
    reply: Reply,
    now: Timestamp,
    next: begin_registration::Next,
)
    requires
        begin_registration::advances(active, run, reply, now, next),
    ensures
        next matches Progress::Act(_, Action::EnsureSubject { subject, user_id }) ==> {
            &&& subject == run.task.request.subject
            &&& user_id / 0x1000_0000_0000_0000_0000 % 16 == 4
            &&& user_id / 0x4000_0000_0000_0000 % 4 == 2
        },
{
}

} // verus!
