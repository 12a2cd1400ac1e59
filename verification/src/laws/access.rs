//! Who gets past the start of an operation.

use lenso_auth_sdk::ActorAssertionVerifier;
use lenso_kernel::InvocationContext;
use vstd::prelude::*;

use crate::active::ActiveView;
use crate::authority::{
    accepted_assertion, allowed_caller, asserted_kind, asserted_subject, assertion_verifier,
    calling_instance, directory_status, managing_caller, DirectoryReply, DirectoryStatus,
};
use crate::ceremony::texts;
use crate::contract::{
    BeginAuthenticationError, BeginAuthenticationRequest, BeginRegistrationError,
    BeginRegistrationRequest, FinishAuthenticationError, FinishAuthenticationRequest,
    FinishRegistrationError, FinishRegistrationRequest, ListPasskeysError, ListPasskeysRequest,
    RevokePasskeyError, RevokePasskeyRequest,
};
use crate::failure::Failure;
use crate::instant::Timestamp;
use crate::{
    begin_authentication, begin_registration, finish_authentication, finish_registration,
    list_passkeys, revoke_passkey,
};

verus! {

/// A configured management caller that brings, for this operation, an accepted assertion about
/// a user, who is the subject.
pub open spec fn manages(
    active: ActiveView,
    context: InvocationContext,
    operation: Seq<char>,
    subject: Seq<char>,
    now: Timestamp,
) -> bool {
    &&& calling_instance(context) matches Some(caller)
    &&& active.config.management_callers.contains(caller)
    &&& accepted_assertion(
        assertion_verifier(active.config.auth_issuer, active.config.auth_public_key)->0,
        context,
        "lenso.auth.passkey@1"@,
        operation,
        now.unix_nanos as int,
    ) matches Some(assertion)
    &&& asserted_kind(assertion) == "user"@
    &&& asserted_subject(assertion) == subject
}

/// A configured authentication caller.
pub open spec fn enters(active: ActiveView, context: InvocationContext) -> bool {
    &&& calling_instance(context) matches Some(caller)
    &&& active.config.authentication_callers.contains(caller)
}

/// Whoever does not manage a subject is told that a registration is forbidden, whatever the
/// request; and only they are.
pub proof fn only_managers_begin_registrations(
    active: ActiveView,
    context: InvocationContext,
    request: BeginRegistrationRequest,
    request_json: Seq<u8>,
    now: Timestamp,
    next: begin_registration::Next,
)
    requires
        begin_registration::starts(active, context, request, request_json, now, next),
    ensures
        manages(active, context, "begin_registration"@, request.subject@, now) <==> next
            != begin_registration::finished(BeginRegistrationError::Forbidden),
{
}

/// Whoever does not manage a subject is told that finishing a registration is forbidden, whatever
/// the request; and only they are.
pub proof fn only_managers_finish_registrations(
    active: ActiveView,
    context: InvocationContext,
    request: FinishRegistrationRequest,
    request_json: Seq<u8>,
    now: Timestamp,
    next: finish_registration::Next,
)
    requires
        finish_registration::starts(active, context, request, request_json, now, next),
    ensures
        manages(active, context, "finish_registration"@, request.subject@, now) <==> next
            != finish_registration::finished(FinishRegistrationError::Forbidden),
{
}

/// Whoever does not manage a subject is told that listing is forbidden, whatever the request; and
/// only they are.
pub proof fn only_managers_list(
    active: ActiveView,
    context: InvocationContext,
    request: ListPasskeysRequest,
    now: Timestamp,
    next: list_passkeys::Next,
)
    requires
        list_passkeys::starts(active, context, request, now, next),
    ensures
        manages(active, context, "list_passkeys"@, request.subject@, now) <==> next
            != list_passkeys::finished(ListPasskeysError::Forbidden),
{
}

/// Whoever does not manage a subject is told that a revocation is forbidden, whatever the
/// request; and only they are.
pub proof fn only_managers_revoke(
    active: ActiveView,
    context: InvocationContext,
    request: RevokePasskeyRequest,
    request_json: Seq<u8>,
    now: Timestamp,
    next: revoke_passkey::Next,
)
    requires
        revoke_passkey::starts(active, context, request, request_json, now, next),
    ensures
        manages(active, context, "revoke_passkey"@, request.subject@, now) <==> next
            != revoke_passkey::finished(RevokePasskeyError::Forbidden),
{
}

/// Whoever is not a configured authentication caller is told that an authentication is forbidden,
/// whatever the request; and only they are.
pub proof fn only_ingress_begins_authentications(
    active: ActiveView,
    context: InvocationContext,
    request: BeginAuthenticationRequest,
    request_json: Seq<u8>,
    next: begin_authentication::Next,
)
    requires
        begin_authentication::starts(active, context, request, request_json, next),
    ensures
        enters(active, context) <==> next != begin_authentication::finished(
            BeginAuthenticationError::Forbidden,
        ),
{
}

/// Whoever is not a configured authentication caller is told that finishing an authentication is
/// forbidden, whatever the request; and only they are.
pub proof fn only_ingress_finishes_authentications(
    active: ActiveView,
    context: InvocationContext,
    request: FinishAuthenticationRequest,
    request_json: Seq<u8>,
    next: finish_authentication::Next,
)
    requires
        finish_authentication::starts(active, context, request, request_json, next),
    ensures
        enters(active, context) <==> next != finish_authentication::finished(
            FinishAuthenticationError::Forbidden,
        ),
{
}

/// Whether a text is one of others.
pub open spec fn is_among(value: Seq<char>, values: Seq<String>) -> bool {
    exists|i: int| 0 <= i < values.len() && (#[trigger] values[i])@ == value
}

proof fn texts_hold_their_values(values: Seq<String>, value: Seq<char>)
    ensures
        texts(values).contains(value) <==> is_among(value, values),
{
    if is_among(value, values) {
        let i = choose|i: int| 0 <= i < values.len() && (#[trigger] values[i])@ == value;
        assert(texts(values)[i] == value);
    }
    if texts(values).contains(value) {
        let i = choose|i: int| 0 <= i < texts(values).len() && texts(values)[i] == value;
        assert(values[i]@ == value);
    }
}

/// A caller is admitted exactly where it is one of the configured ones; and as a manager exactly
/// where it also brings an accepted assertion for the operation, about a user, who is the subject.
pub proof fn callers_are_admitted_by_name_and_assertion(
    callers: &Vec<String>,
    verifier: &ActorAssertionVerifier,
    context: &InvocationContext,
    operation: &str,
    subject: &str,
    now: Timestamp,
    r: Option<String>,
)
    ensures
        call_requires(allowed_caller, (callers, context)),
        call_ensures(allowed_caller, (callers, context), r) ==> match calling_instance(*context) {
            Some(caller) if is_among(caller, callers@) => r matches Some(name) && name@ == caller,
            _ => r is None,
        },
        call_ensures(
            managing_caller,
            (callers, verifier, context, operation, subject, now),
            r,
        ) ==> {
            let assertion = accepted_assertion(
                *verifier,
                *context,
                "lenso.auth.passkey@1"@,
                operation@,
                now.unix_nanos as int,
            );
            match (calling_instance(*context), assertion) {
                (Some(caller), Some(assertion)) if is_among(caller, callers@) && asserted_kind(
                    assertion,
                ) == "user"@ && asserted_subject(assertion) == subject@ => r matches Some(name)
                    && name@ == caller,
                _ => r is None,
            }
        },
{
    if let Some(caller) = calling_instance(*context) {
        texts_hold_their_values(callers@, caller);
    }
}

/// The directory's answer is taken as it is given, and only of the subject that was asked for.
pub proof fn answers_of_the_directory_are_taken_as_given(
    subject: &str,
    answered: String,
    active: bool,
    error: String,
    r: Result<DirectoryStatus, Failure>,
)
    ensures
        call_ensures(
            directory_status,
            (DirectoryReply::Status { subject: answered, active }, subject),
            r,
        ) ==> r == (if answered@ != subject@ {
            Err(Failure::DirectoryOtherSubject)
        } else if active {
            Ok(DirectoryStatus::Active)
        } else {
            Ok(DirectoryStatus::Disabled)
        }),
        call_ensures(directory_status, (DirectoryReply::NotFound, subject), r) ==> r == Ok::<
            DirectoryStatus,
            Failure,
        >(DirectoryStatus::Missing),
        call_ensures(directory_status, (DirectoryReply::Unknown(error), subject), r) ==> r == Err::<
            DirectoryStatus,
            Failure,
        >(Failure::DirectoryUnknown(error)),
        call_ensures(directory_status, (DirectoryReply::Unavailable, subject), r) ==> r == Err::<
            DirectoryStatus,
            Failure,
        >(Failure::Dependency),
{
}

} // verus!
