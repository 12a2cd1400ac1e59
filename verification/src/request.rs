//! Which requests are well formed.

use vstd::prelude::*;
use vstd::string::*;
use vstd::utf8::encode_utf8;

use crate::contract::{
    BeginAuthenticationRequest, BeginRegistrationRequest, FinishAuthenticationRequest,
    FinishRegistrationRequest, RevokePasskeyRequest,
};
use crate::text::{
    is_human_name, is_token, parse_revision, revision_of, valid_human_name, valid_idempotency_key,
    valid_subject, valid_token,
};

verus! {

/// The longest credential response, in bytes, that is looked at.
pub const CREDENTIAL_LIMIT: usize = 65_536;

/// The revision that a well-formed begin-registration request expects.
pub open spec fn begin_registration_revision(request: BeginRegistrationRequest) -> Option<i64> {
    if is_token(request.idempotency_key@, 128) && is_token(request.subject@, 256) && is_human_name(
        request.user_name@,
        256,
    ) && is_human_name(request.display_name@, 256) {
        revision_of(request.expected_revision@)
    } else {
        None
    }
}

pub fn valid_begin_registration(request: &BeginRegistrationRequest) -> (r: Option<i64>)
    ensures
        r == begin_registration_revision(*request),
{
    let revision = match parse_revision(request.expected_revision.as_str()) {
        Some(revision) => revision,
        None => return None,
    };
    if valid_idempotency_key(request.idempotency_key.as_str()) && valid_subject(
        request.subject.as_str(),
    ) && valid_human_name(request.user_name.as_str(), 256) && valid_human_name(
        request.display_name.as_str(),
        256,
    ) {
        Some(revision)
    } else {
        None
    }
}

/// The revision that a well-formed finish-registration request expects.
pub open spec fn finish_registration_revision(request: FinishRegistrationRequest) -> Option<i64> {
    if is_token(request.idempotency_key@, 128) && is_token(request.challenge_id@, 128) && is_token(
        request.subject@,
        256,
    ) && is_human_name(request.label@, 128) && encode_utf8(request.credential_json@).len()
        <= CREDENTIAL_LIMIT {
        revision_of(request.expected_revision@)
    } else {
        None
    }
}

pub fn valid_finish_registration(request: &FinishRegistrationRequest) -> (r: Option<i64>)
    ensures
        r == finish_registration_revision(*request),
{
    let revision = match parse_revision(request.expected_revision.as_str()) {
        Some(revision) => revision,
        None => return None,
    };
    if valid_idempotency_key(request.idempotency_key.as_str()) && valid_token(
        request.challenge_id.as_str(),
        128,
    ) && valid_subject(request.subject.as_str()) && valid_human_name(request.label.as_str(), 128)
        && request.credential_json.as_str().as_bytes().len() <= CREDENTIAL_LIMIT {
        Some(revision)
    } else {
        None
    }
}

/// The revision that a well-formed revoke-passkey request expects.
pub open spec fn revoke_revision(request: RevokePasskeyRequest) -> Option<i64> {
    if is_token(request.idempotency_key@, 128) && is_token(request.subject@, 256) && is_token(
        request.passkey_id@,
        128,
    ) {
        revision_of(request.expected_revision@)
    } else {
        None
    }
}

pub fn valid_revoke(request: &RevokePasskeyRequest) -> (r: Option<i64>)
    ensures
        r == revoke_revision(*request),
{
    let revision = match parse_revision(request.expected_revision.as_str()) {
        Some(revision) => revision,
        None => return None,
    };
    if valid_idempotency_key(request.idempotency_key.as_str()) && valid_subject(
        request.subject.as_str(),
    ) && valid_token(request.passkey_id.as_str(), 128) {
        Some(revision)
    } else {
        None
    }
}

/// A well-formed begin-authentication request.
pub open spec fn is_begin_authentication(request: BeginAuthenticationRequest) -> bool {
    is_token(request.subject@, 256) && is_token(request.idempotency_key@, 128)
}

pub fn valid_begin_authentication(request: &BeginAuthenticationRequest) -> (r: bool)
    ensures
        r == is_begin_authentication(*request),
{
    valid_subject(request.subject.as_str()) && valid_idempotency_key(
        request.idempotency_key.as_str(),
    )
}

/// A well-formed finish-authentication request.
pub open spec fn is_finish_authentication(request: FinishAuthenticationRequest) -> bool {
    &&& is_token(request.idempotency_key@, 128)
    &&& is_token(request.challenge_id@, 128)
    &&& encode_utf8(request.credential_json@).len() <= CREDENTIAL_LIMIT
}

pub fn valid_finish_authentication(request: &FinishAuthenticationRequest) -> (r: bool)
    ensures
        r == is_finish_authentication(*request),
{
    valid_idempotency_key(request.idempotency_key.as_str()) && valid_token(
        request.challenge_id.as_str(),
        128,
    ) && request.credential_json.as_str().as_bytes().len() <= CREDENTIAL_LIMIT
}

} // verus!
