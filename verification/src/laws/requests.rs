//! Which requests an operation starts on, and what it then works on.

use lenso_kernel::InvocationContext;
use vstd::prelude::*;
use vstd::utf8::encode_utf8;

use crate::active::ActiveView;
use crate::authority::calling_instance;
use crate::command::CommandKey;
use crate::contract::{
    BeginAuthenticationError, BeginAuthenticationRequest, BeginRegistrationError,
    BeginRegistrationRequest, FinishAuthenticationError, FinishAuthenticationRequest,
    FinishRegistrationError, FinishRegistrationRequest, ListPasskeysError, ListPasskeysRequest,
    RevokePasskeyError, RevokePasskeyRequest,
};
use crate::instant::Timestamp;
use crate::laws::access::{enters, manages};
use crate::laws::notation::{
    is_plain, is_readable, is_revision, names_are_readable, number,
    revisions_are_read_as_they_are_written, tokens_are_plain,
};
use crate::receipt::sha256;
use crate::request::{
    valid_begin_authentication, valid_begin_registration, valid_finish_authentication,
    valid_finish_registration, valid_revoke,
};
use crate::storage::{Action, Progress};
use crate::{
    begin_authentication, begin_registration, finish_authentication, finish_registration,
    list_passkeys, revoke_passkey,
};

verus! {

/// Whether a command is named by who calls, by the operation, and by the key of the request.
pub open spec fn is_named(
    key: CommandKey,
    context: InvocationContext,
    operation: Seq<char>,
    idempotency_key: Seq<char>,
) -> bool {
    &&& Some(key.caller@) == calling_instance(context)
    &&& key.operation@ == operation
    &&& key.idempotency_key@ == idempotency_key
}

/// A request with which a registration is begun, character by character.
pub open spec fn is_begin_registration_request(request: BeginRegistrationRequest) -> bool {
    &&& is_plain(request.idempotency_key@, 128)
    &&& is_plain(request.subject@, 256)
    &&& is_readable(request.user_name@, 256)
    &&& is_readable(request.display_name@, 256)
    &&& is_revision(request.expected_revision@)
}

/// Of those who may call, exactly those with a well-formed request start a run, and the run works
/// on their request as it is, under their own key, at the revision that it names; the others are
/// told that the request is invalid.
pub proof fn begin_registration_starts_on_well_formed_requests(
    active: ActiveView,
    context: InvocationContext,
    request: BeginRegistrationRequest,
    request_json: Seq<u8>,
    now: Timestamp,
    next: begin_registration::Next,
)
    requires
        begin_registration::starts(active, context, request, request_json, now, next),
        manages(active, context, "begin_registration"@, request.subject@, now),
    ensures
        !is_begin_registration_request(request) ==> next == begin_registration::finished(
            BeginRegistrationError::InvalidRequest,
        ),
        is_begin_registration_request(request) ==> {
            &&& next matches Progress::Act(run, action)
            &&& run.task.request == request
            &&& is_named(run.task.key, context, "begin_registration"@, request.idempotency_key@)
            &&& run.task.intent@ == sha256(request_json)
            &&& run.task.expected_revision == number(request.expected_revision@)
            &&& action is PruneChallenges
        },
{
    tokens_are_plain(request.idempotency_key@, 128);
    tokens_are_plain(request.subject@, 256);
    names_are_readable(request.user_name@, 256);
    names_are_readable(request.display_name@, 256);
    revisions_are_read_as_they_are_written(request.expected_revision@);
}

/// A request with which a registration is finished, character by character.
pub open spec fn is_finish_registration_request(request: FinishRegistrationRequest) -> bool {
    &&& is_plain(request.idempotency_key@, 128)
    &&& is_plain(request.challenge_id@, 128)
    &&& is_plain(request.subject@, 256)
    &&& is_readable(request.label@, 128)
    &&& encode_utf8(request.credential_json@).len() <= 65_536
    &&& is_revision(request.expected_revision@)
}

/// Of those who may call, exactly those with a well-formed request start a run, and the run works
/// on their request as it is, under their own key, at the revision that it names; the others are
/// told that the request is invalid.
pub proof fn finish_registration_starts_on_well_formed_requests(
    active: ActiveView,
    context: InvocationContext,
    request: FinishRegistrationRequest,
    request_json: Seq<u8>,
    now: Timestamp,
    next: finish_registration::Next,
)
    requires
        finish_registration::starts(active, context, request, request_json, now, next),
        manages(active, context, "finish_registration"@, request.subject@, now),
    ensures
        !is_finish_registration_request(request) ==> next == finish_registration::finished(
            FinishRegistrationError::InvalidRequest,
        ),
        is_finish_registration_request(request) ==> {
            &&& next matches Progress::Act(run, action)
            &&& run.task.request == request
            &&& is_named(run.task.key, context, "finish_registration"@, request.idempotency_key@)
            &&& run.task.intent@ == sha256(request_json)
            &&& run.task.expected_revision == number(request.expected_revision@)
            &&& action matches Action::ReserveCommand { key, intent }
            &&& key == run.task.key
            &&& intent == run.task.intent
        },
{
    tokens_are_plain(request.idempotency_key@, 128);
    tokens_are_plain(request.challenge_id@, 128);
    tokens_are_plain(request.subject@, 256);
    names_are_readable(request.label@, 128);
    revisions_are_read_as_they_are_written(request.expected_revision@);
}

/// A request with which a passkey is revoked, character by character.
pub open spec fn is_revoke_passkey_request(request: RevokePasskeyRequest) -> bool {
    &&& is_plain(request.idempotency_key@, 128)
    &&& is_plain(request.subject@, 256)
    &&& is_plain(request.passkey_id@, 128)
    &&& is_revision(request.expected_revision@)
}

/// Of those who may call, exactly those with a well-formed request start a run, and the run works
/// on their request as it is, under their own key, at the revision that it names; the others are
/// told that the request is invalid.
pub proof fn revoke_passkey_starts_on_well_formed_requests(
    active: ActiveView,
    context: InvocationContext,
    request: RevokePasskeyRequest,
    request_json: Seq<u8>,
    now: Timestamp,
    next: revoke_passkey::Next,
)
    requires
        revoke_passkey::starts(active, context, request, request_json, now, next),
        manages(active, context, "revoke_passkey"@, request.subject@, now),
    ensures
        !is_revoke_passkey_request(request) ==> next == revoke_passkey::finished(
            RevokePasskeyError::InvalidRequest,
        ),
        is_revoke_passkey_request(request) ==> {
            &&& next matches Progress::Act(run, action)
            &&& run.task.request == request
            &&& is_named(run.task.key, context, "revoke_passkey"@, request.idempotency_key@)
            &&& run.task.intent@ == sha256(request_json)
            &&& run.task.expected_revision == number(request.expected_revision@)
            &&& action matches Action::ReserveCommand { key, intent }
            &&& key == run.task.key
            &&& intent == run.task.intent
        },
{
    tokens_are_plain(request.idempotency_key@, 128);
    tokens_are_plain(request.subject@, 256);
    tokens_are_plain(request.passkey_id@, 128);
    revisions_are_read_as_they_are_written(request.expected_revision@);
}

/// A request with which an authentication is begun, character by character.
pub open spec fn is_begin_authentication_request(request: BeginAuthenticationRequest) -> bool {
    &&& is_plain(request.idempotency_key@, 128)
    &&& is_plain(request.subject@, 256)
}

/// Of those who may call, exactly those with a well-formed request start a run, and the run works
/// on their request as it is, under their own key; the others are told that the request is invalid.
pub proof fn begin_authentication_starts_on_well_formed_requests(
    active: ActiveView,
    context: InvocationContext,
    request: BeginAuthenticationRequest,
    request_json: Seq<u8>,
    next: begin_authentication::Next,
)
    requires
        begin_authentication::starts(active, context, request, request_json, next),
        enters(active, context),
    ensures
        !is_begin_authentication_request(request) ==> next == begin_authentication::finished(
            BeginAuthenticationError::InvalidRequest,
        ),
        is_begin_authentication_request(request) ==> {
            &&& next matches Progress::Act(run, action)
            &&& run.task.request == request
            &&& is_named(run.task.key, context, "begin_authentication"@, request.idempotency_key@)
            &&& run.task.intent@ == sha256(request_json)
            &&& action is PruneChallenges
        },
{
    tokens_are_plain(request.idempotency_key@, 128);
    tokens_are_plain(request.subject@, 256);
}

/// A request with which an authentication is finished, character by character.
pub open spec fn is_finish_authentication_request(request: FinishAuthenticationRequest) -> bool {
    &&& is_plain(request.idempotency_key@, 128)
    &&& is_plain(request.challenge_id@, 128)
    &&& encode_utf8(request.credential_json@).len() <= 65_536
}

/// Of those who may call, exactly those with a well-formed request start a run, and the run works
/// on their request as it is, under their own key; the others are told that the request is invalid.
pub proof fn finish_authentication_starts_on_well_formed_requests(
    active: ActiveView,
    context: InvocationContext,
    request: FinishAuthenticationRequest,
    request_json: Seq<u8>,
    next: finish_authentication::Next,
)
    requires
        finish_authentication::starts(active, context, request, request_json, next),
        enters(active, context),
    ensures
        !is_finish_authentication_request(request) ==> next == finish_authentication::finished(
            FinishAuthenticationError::InvalidRequest,
        ),
        is_finish_authentication_request(request) ==> {
            &&& next matches Progress::Act(run, action)
            &&& run.task.request == request
            &&& is_named(run.task.key, context, "finish_authentication"@, request.idempotency_key@)
            &&& run.task.intent@ == sha256(request_json)
            &&& action matches Action::ReserveCommand { key, intent }
            &&& key == run.task.key
            &&& intent == run.task.intent
        },
{
    tokens_are_plain(request.idempotency_key@, 128);
    tokens_are_plain(request.challenge_id@, 128);
}

/// Of those who may call, exactly those with a well-formed subject start a listing, and the run
/// works on their request as it is; the others are told that the request is invalid.
pub proof fn list_passkeys_starts_on_well_formed_requests(
    active: ActiveView,
    context: InvocationContext,
    request: ListPasskeysRequest,
    now: Timestamp,
    next: list_passkeys::Next,
)
    requires
        list_passkeys::starts(active, context, request, now, next),
        manages(active, context, "list_passkeys"@, request.subject@, now),
    ensures
        !is_plain(request.subject@, 256) ==> next == list_passkeys::finished(
            ListPasskeysError::InvalidRequest,
        ),
        is_plain(request.subject@, 256) ==> {
            &&& next matches Progress::Act(run, action)
            &&& run.request == request
            &&& action matches Action::ReadDirectory { subject }
            &&& subject == request.subject
        },
{
    tokens_are_plain(request.subject@, 256);
}

/// The functions that look at requests say of each whether it is well formed, and at which
/// revision.
pub proof fn requests_are_looked_at_character_by_character(
    a: &BeginRegistrationRequest,
    b: &FinishRegistrationRequest,
    c: &RevokePasskeyRequest,
    d: &BeginAuthenticationRequest,
    e: &FinishAuthenticationRequest,
    revision: Option<i64>,
    valid: bool,
)
    ensures
        call_requires(valid_begin_registration, (a,)),
        call_ensures(valid_begin_registration, (a,), revision) ==> {
            &&& revision is Some <==> is_begin_registration_request(*a)
            &&& revision matches Some(n) ==> n == number(a.expected_revision@)
        },
        call_requires(valid_finish_registration, (b,)),
        call_ensures(valid_finish_registration, (b,), revision) ==> {
            &&& revision is Some <==> is_finish_registration_request(*b)
            &&& revision matches Some(n) ==> n == number(b.expected_revision@)
        },
        call_requires(valid_revoke, (c,)),
        call_ensures(valid_revoke, (c,), revision) ==> {
            &&& revision is Some <==> is_revoke_passkey_request(*c)
            &&& revision matches Some(n) ==> n == number(c.expected_revision@)
        },
        call_requires(valid_begin_authentication, (d,)),
        call_ensures(valid_begin_authentication, (d,), valid) ==> valid
            == is_begin_authentication_request(*d),
        call_requires(valid_finish_authentication, (e,)),
        call_ensures(valid_finish_authentication, (e,), valid) ==> valid
            == is_finish_authentication_request(*e),
{
    tokens_are_plain(a.idempotency_key@, 128);
    tokens_are_plain(a.subject@, 256);
    names_are_readable(a.user_name@, 256);
    names_are_readable(a.display_name@, 256);
    revisions_are_read_as_they_are_written(a.expected_revision@);
    tokens_are_plain(b.idempotency_key@, 128);
    tokens_are_plain(b.challenge_id@, 128);
    tokens_are_plain(b.subject@, 256);
    names_are_readable(b.label@, 128);
    revisions_are_read_as_they_are_written(b.expected_revision@);
    tokens_are_plain(c.idempotency_key@, 128);
    tokens_are_plain(c.subject@, 256);
    tokens_are_plain(c.passkey_id@, 128);
    revisions_are_read_as_they_are_written(c.expected_revision@);
    tokens_are_plain(d.idempotency_key@, 128);
    tokens_are_plain(d.subject@, 256);
    tokens_are_plain(e.idempotency_key@, 128);
    tokens_are_plain(e.challenge_id@, 128);
}

} // verus!
