//! The portable `lenso.auth.passkey@1` role: its requests, responses and domain errors.

use vstd::prelude::*;
use vstd::string::*;

verus! {

/// The identity of the capability.
pub const CAPABILITY_ID: &'static str = "lenso.auth.passkey@1";

pub const BEGIN_REGISTRATION_OPERATION: &'static str = "begin_registration";

pub const FINISH_REGISTRATION_OPERATION: &'static str = "finish_registration";

pub const BEGIN_AUTHENTICATION_OPERATION: &'static str = "begin_authentication";

pub const FINISH_AUTHENTICATION_OPERATION: &'static str = "finish_authentication";

pub const LIST_PASSKEYS_OPERATION: &'static str = "list_passkeys";

pub const REVOKE_PASSKEY_OPERATION: &'static str = "revoke_passkey";

/// A value that is always present on the wire, as `null` where there is none.
#[derive(Clone, Debug, PartialEq, Eq)]
pub struct Nullable<T>(pub Option<T>);

impl<T> Nullable<T> {
    /// The schema name of a nullable value, from the schema name of the value.
    pub fn schema_name(inner: &str) -> (r: String)
        ensures
            r@ == "Nullable_"@ + inner@,
    {
        "Nullable_".to_owned().concat(inner)
    }

    /// The schema identity of a nullable value, from the schema identity of the value.
    pub fn schema_id(inner: &str) -> (r: String)
        ensures
            r@ == "Nullable<"@ + inner@ + ">"@,
    {
        "Nullable<".to_owned().concat(inner).concat(">")
    }
}

impl Nullable<String> {
    pub fn copy(&self) -> (r: Nullable<String>)
        ensures
            r == *self,
    {
        match &self.0 {
            Some(text) => Nullable(Some(text.clone())),
            None => Nullable(None),
        }
    }
}

#[derive(Clone, Debug, PartialEq, Eq)]
pub struct PasskeySummary {
    pub passkey_id: String,
    pub label: String,
    pub credential_id: String,
    pub sign_count: String,
    pub revision: String,
    pub created_at: String,
    pub last_used_at: Nullable<String>,
    pub revoked_at: Nullable<String>,
}

impl PasskeySummary {
    pub fn copy(&self) -> (r: PasskeySummary)
        ensures
            r == *self,
    {
        PasskeySummary {
            passkey_id: self.passkey_id.clone(),
            label: self.label.clone(),
            credential_id: self.credential_id.clone(),
            sign_count: self.sign_count.clone(),
            revision: self.revision.clone(),
            created_at: self.created_at.clone(),
            last_used_at: self.last_used_at.copy(),
            revoked_at: self.revoked_at.copy(),
        }
    }
}

#[derive(Clone, Debug, PartialEq, Eq)]
pub struct BeginRegistrationRequest {
    pub idempotency_key: String,
    pub subject: String,
    pub user_name: String,
    pub display_name: String,
    pub expected_revision: String,
}

#[derive(Clone, Debug, PartialEq, Eq)]
pub struct BeginRegistrationResponse {
    pub challenge_id: String,
    pub public_key_json: String,
    pub expires_at: String,
    pub revision: String,
}

impl BeginRegistrationResponse {
    pub fn copy(&self) -> (r: BeginRegistrationResponse)
        ensures
            r == *self,
    {
        BeginRegistrationResponse {
            challenge_id: self.challenge_id.clone(),
            public_key_json: self.public_key_json.clone(),
            expires_at: self.expires_at.clone(),
            revision: self.revision.clone(),
        }
    }
}

#[derive(Clone, Copy, Debug, PartialEq, Eq)]
pub enum BeginRegistrationError {
    Forbidden,
    InvalidRequest,
    Disabled,
    RevisionConflict,
    IdempotencyConflict,
    OperationInProgress,
    TooManyPasskeys,
}

#[derive(Clone, Debug, PartialEq, Eq)]
pub struct FinishRegistrationRequest {
    pub idempotency_key: String,
    pub challenge_id: String,
    pub subject: String,
    pub expected_revision: String,
    pub label: String,
    pub credential_json: String,
}

#[derive(Clone, Debug, PartialEq, Eq)]
pub struct FinishRegistrationResponse {
    pub passkey: PasskeySummary,
    pub revision: String,
}

impl FinishRegistrationResponse {
    pub fn copy(&self) -> (r: FinishRegistrationResponse)
        ensures
            r == *self,
    {
        FinishRegistrationResponse {
            passkey: self.passkey.copy(),
            revision: self.revision.clone(),
        }
    }
}

#[derive(Clone, Copy, Debug, PartialEq, Eq)]
pub enum FinishRegistrationError {
    Forbidden,
    InvalidRequest,
    Disabled,
    ChallengeExpired,
    ChallengeUsed,
    InvalidCredential,
    CredentialExists,
    RevisionConflict,
    IdempotencyConflict,
    OperationInProgress,
}

#[derive(Clone, Debug, PartialEq, Eq)]
pub struct BeginAuthenticationRequest {
    pub idempotency_key: String,
    pub subject: String,
}

#[derive(Clone, Debug, PartialEq, Eq)]
pub struct BeginAuthenticationResponse {
    pub challenge_id: String,
    pub public_key_json: String,
    pub expires_at: String,
    pub revision: String,
}

impl BeginAuthenticationResponse {
    pub fn copy(&self) -> (r: BeginAuthenticationResponse)
        ensures
            r == *self,
    {
        BeginAuthenticationResponse {
            challenge_id: self.challenge_id.clone(),
            public_key_json: self.public_key_json.clone(),
            expires_at: self.expires_at.clone(),
            revision: self.revision.clone(),
        }
    }
}

#[derive(Clone, Copy, Debug, PartialEq, Eq)]
pub enum BeginAuthenticationError {
    Forbidden,
    InvalidRequest,
    InvalidCredentials,
    IdempotencyConflict,
    OperationInProgress,
}

#[derive(Clone, Debug, PartialEq, Eq)]
pub struct FinishAuthenticationRequest {
    pub idempotency_key: String,
    pub challenge_id: String,
    pub credential_json: String,
}

#[derive(Clone, Debug, PartialEq, Eq)]
pub struct FinishAuthenticationResponse {
    pub subject: String,
    pub passkey_id: String,
    pub revision: String,
    pub session_id: String,
    pub credential: String,
    pub expires_at: String,
}

impl FinishAuthenticationResponse {
    pub fn copy(&self) -> (r: FinishAuthenticationResponse)
        ensures
            r == *self,
    {
        FinishAuthenticationResponse {
            subject: self.subject.clone(),
            passkey_id: self.passkey_id.clone(),
            revision: self.revision.clone(),
            session_id: self.session_id.clone(),
            credential: self.credential.clone(),
            expires_at: self.expires_at.clone(),
        }
    }
}

#[derive(Clone, Copy, Debug, PartialEq, Eq)]
pub enum FinishAuthenticationError {
    Forbidden,
    InvalidRequest,
    InvalidCredentials,
    ChallengeExpired,
    ChallengeUsed,
    Disabled,
    IdempotencyConflict,
    OperationInProgress,
}

#[derive(Clone, Debug, PartialEq, Eq)]
pub struct ListPasskeysRequest {
    pub subject: String,
    pub include_revoked: bool,
}

#[derive(Clone, Debug, PartialEq, Eq)]
pub struct ListPasskeysResponse {
    pub revision: String,
    pub passkeys: Vec<PasskeySummary>,
}

#[derive(Clone, Copy, Debug, PartialEq, Eq)]
pub enum ListPasskeysError {
    Forbidden,
    InvalidRequest,
    Disabled,
}

#[derive(Clone, Debug, PartialEq, Eq)]
pub struct RevokePasskeyRequest {
    pub idempotency_key: String,
    pub subject: String,
    pub passkey_id: String,
    pub expected_revision: String,
}

#[derive(Clone, Debug, PartialEq, Eq)]
pub struct RevokePasskeyResponse {
    pub passkey_id: String,
    pub revoked: bool,
    pub revision: String,
    pub passkey_revision: String,
}

impl RevokePasskeyResponse {
    pub fn copy(&self) -> (r: RevokePasskeyResponse)
        ensures
            r == *self,
    {
        RevokePasskeyResponse {
            passkey_id: self.passkey_id.clone(),
            revoked: self.revoked,
            revision: self.revision.clone(),
            passkey_revision: self.passkey_revision.clone(),
        }
    }
}

#[derive(Clone, Copy, Debug, PartialEq, Eq)]
pub enum RevokePasskeyError {
    Forbidden,
    InvalidRequest,
    Disabled,
    PasskeyNotFound,
    RevisionConflict,
    IdempotencyConflict,
    OperationInProgress,
}

} // verus!
