//! Stored rows, and how their columns are read.

use vstd::prelude::*;

use crate::failure::PasskeyPluginError;
use crate::instant::Timestamp;

verus! {

/// A subject: its WebAuthn user handle and the revision of its credential set.
#[derive(Clone, Copy, Debug, PartialEq, Eq)]
pub struct SubjectRow {
    pub user_id: u128,
    pub revision: i64,
}

/// A stored passkey.
#[derive(Clone, Debug, PartialEq, Eq)]
pub struct PasskeyRow {
    pub passkey_id: String,
    pub credential_id: Vec<u8>,
    pub passkey: String,
    pub label: String,
    pub sign_count: i64,
    pub revision: i64,
    pub created_at: Timestamp,
    pub last_used_at: Option<Timestamp>,
    pub revoked_at: Option<Timestamp>,
}

/// A stored challenge, as it was when it was locked.
#[derive(Clone, Debug, PartialEq, Eq)]
pub struct ChallengeRow {
    pub caller_instance: String,
    pub subject: String,
    pub expected_revision: i64,
    pub state: String,
    pub expires_at: Timestamp,
    pub consumed_at: Option<Timestamp>,
}

/// What inserting a passkey gives back.
#[derive(Clone, Copy, Debug, PartialEq, Eq)]
pub struct InsertedPasskey {
    pub revision: i64,
    pub created_at: Timestamp,
}

/// What a revocation reads of a passkey.
#[derive(Clone, Copy, Debug, PartialEq, Eq)]
pub struct RevocablePasskey {
    pub revision: i64,
    pub revoked_at: Option<Timestamp>,
}

/// The columns of a subject; each is there, or the text of why it could not be read.
#[derive(Debug)]
pub struct SubjectColumns {
    pub user_id: Result<u128, String>,
    pub revision: Result<i64, String>,
}

/// The columns of a passkey.
#[derive(Debug)]
pub struct PasskeyColumns {
    pub passkey_id: Result<String, String>,
    pub credential_id: Result<Vec<u8>, String>,
    pub passkey: Result<String, String>,
    pub label: Result<String, String>,
    pub sign_count: Result<i64, String>,
    pub revision: Result<i64, String>,
    pub created_at: Result<Timestamp, String>,
    pub last_used_at: Result<Option<Timestamp>, String>,
    pub revoked_at: Result<Option<Timestamp>, String>,
}

/// The columns of a challenge.
#[derive(Debug)]
pub struct ChallengeColumns {
    pub caller_instance: Result<String, String>,
    pub subject: Result<String, String>,
    pub expected_revision: Result<i64, String>,
    pub state: Result<String, String>,
    pub expires_at: Result<Timestamp, String>,
    pub consumed_at: Result<Option<Timestamp>, String>,
}

/// A column, or the fault of one that could not be read.
pub open spec fn column<T>(value: Result<T, String>, operation: &'static str) -> Result<
    T,
    PasskeyPluginError,
> {
    match value {
        Ok(value) => Ok(value),
        Err(source) => Err(PasskeyPluginError::Database { operation, source }),
    }
}

fn read_column<T>(value: Result<T, String>, operation: &'static str) -> (r: Result<
    T,
    PasskeyPluginError,
>)
    ensures
        r == column(value, operation),
{
    match value {
        Ok(value) => Ok(value),
        Err(source) => Err(PasskeyPluginError::Database { operation, source }),
    }
}

/// A result's fault, if it has one.
pub open spec fn fault<T>(r: Result<T, PasskeyPluginError>) -> Option<PasskeyPluginError> {
    match r {
        Ok(_) => None,
        Err(error) => Some(error),
    }
}

/// The first of two faults.
pub open spec fn first_fault(
    a: Option<PasskeyPluginError>,
    b: Option<PasskeyPluginError>,
) -> Option<PasskeyPluginError> {
    if a is Some {
        a
    } else {
        b
    }
}

impl SubjectColumns {
    /// The fault of the first column that could not be read.
    pub open spec fn fault(self) -> Option<PasskeyPluginError> {
        first_fault(
            fault(column(self.user_id, "decode WebAuthn user id")),
            fault(column(self.revision, "decode passkey subject revision")),
        )
    }

    pub fn decode(self) -> (r: Result<SubjectRow, PasskeyPluginError>)
        ensures
            match self.fault() {
                Some(error) => r == Err::<SubjectRow, PasskeyPluginError>(error),
                None => r == Ok::<SubjectRow, PasskeyPluginError>(
                    SubjectRow { user_id: self.user_id->Ok_0, revision: self.revision->Ok_0 },
                ),
            },
    {
        let user_id = match read_column(self.user_id, "decode WebAuthn user id") {
            Ok(user_id) => user_id,
            Err(error) => return Err(error),
        };
        let revision = match read_column(self.revision, "decode passkey subject revision") {
            Ok(revision) => revision,
            Err(error) => return Err(error),
        };
        Ok(SubjectRow { user_id, revision })
    }
}

impl PasskeyColumns {
    /// The fault of the first column that could not be read.
    pub open spec fn fault(self) -> Option<PasskeyPluginError> {
        let late = first_fault(
            fault(column(self.created_at, "decode passkey creation time")),
            first_fault(
                fault(column(self.last_used_at, "decode passkey last use")),
                fault(column(self.revoked_at, "decode passkey revocation")),
            ),
        );
        let middle = first_fault(
            fault(column(self.label, "decode passkey label")),
            first_fault(
                fault(column(self.sign_count, "decode passkey sign count")),
                fault(column(self.revision, "decode passkey revision")),
            ),
        );
        let early = first_fault(
            fault(column(self.passkey_id, "decode passkey id")),
            first_fault(
                fault(column(self.credential_id, "decode passkey credential id")),
                fault(column(self.passkey, "decode passkey value")),
            ),
        );
        first_fault(early, first_fault(middle, late))
    }

    pub fn decode(self) -> (r: Result<PasskeyRow, PasskeyPluginError>)
        ensures
            match self.fault() {
                Some(error) => r == Err::<PasskeyRow, PasskeyPluginError>(error),
                None => r == Ok::<PasskeyRow, PasskeyPluginError>(
                    PasskeyRow {
                        passkey_id: self.passkey_id->Ok_0,
                        credential_id: self.credential_id->Ok_0,
                        passkey: self.passkey->Ok_0,
                        label: self.label->Ok_0,
                        sign_count: self.sign_count->Ok_0,
                        revision: self.revision->Ok_0,
                        created_at: self.created_at->Ok_0,
                        last_used_at: self.last_used_at->Ok_0,
                        revoked_at: self.revoked_at->Ok_0,
                    },
                ),
            },
    {
        let passkey_id = match read_column(self.passkey_id, "decode passkey id") {
            Ok(passkey_id) => passkey_id,
            Err(error) => return Err(error),
        };
        let credential_id = match read_column(self.credential_id, "decode passkey credential id") {
            Ok(credential_id) => credential_id,
            Err(error) => return Err(error),
        };
        let passkey = match read_column(self.passkey, "decode passkey value") {
            Ok(passkey) => passkey,
            Err(error) => return Err(error),
        };
        let label = match read_column(self.label, "decode passkey label") {
            Ok(label) => label,
            Err(error) => return Err(error),
        };
        let sign_count = match read_column(self.sign_count, "decode passkey sign count") {
            Ok(sign_count) => sign_count,
            Err(error) => return Err(error),
        };
        let revision = match read_column(self.revision, "decode passkey revision") {
            Ok(revision) => revision,
            Err(error) => return Err(error),
        };
        let created_at = match read_column(self.created_at, "decode passkey creation time") {
            Ok(created_at) => created_at,
            Err(error) => return Err(error),
        };
        let last_used_at = match read_column(self.last_used_at, "decode passkey last use") {
            Ok(last_used_at) => last_used_at,
            Err(error) => return Err(error),
        };
        let revoked_at = match read_column(self.revoked_at, "decode passkey revocation") {
            Ok(revoked_at) => revoked_at,
            Err(error) => return Err(error),
        };
        Ok(
            PasskeyRow {
                passkey_id,
                credential_id,
                passkey,
                label,
                sign_count,
                revision,
                created_at,
                last_used_at,
                revoked_at,
            },
        )
    }
}

impl ChallengeColumns {
    /// The fault of the first column that could not be read.
    pub open spec fn fault(self) -> Option<PasskeyPluginError> {
        first_fault(
            first_fault(
                fault(column(self.caller_instance, "decode challenge caller")),
                first_fault(
                    fault(column(self.subject, "decode challenge subject")),
                    fault(column(self.expected_revision, "decode challenge revision")),
                ),
            ),
            first_fault(
                fault(column(self.state, "decode challenge state")),
                first_fault(
                    fault(column(self.expires_at, "decode challenge expiry")),
                    fault(column(self.consumed_at, "decode challenge consumption")),
                ),
            ),
        )
    }

    pub fn decode(self) -> (r: Result<ChallengeRow, PasskeyPluginError>)
        ensures
            match self.fault() {
                Some(error) => r == Err::<ChallengeRow, PasskeyPluginError>(error),
                None => r == Ok::<ChallengeRow, PasskeyPluginError>(
                    ChallengeRow {
                        caller_instance: self.caller_instance->Ok_0,
                        subject: self.subject->Ok_0,
                        expected_revision: self.expected_revision->Ok_0,
                        state: self.state->Ok_0,
                        expires_at: self.expires_at->Ok_0,
                        consumed_at: self.consumed_at->Ok_0,
                    },
                ),
            },
    {
        let caller_instance = match read_column(self.caller_instance, "decode challenge caller") {
            Ok(caller_instance) => caller_instance,
            Err(error) => return Err(error),
        };
        let subject = match read_column(self.subject, "decode challenge subject") {
            Ok(subject) => subject,
            Err(error) => return Err(error),
        };
        let expected_revision = match read_column(
            self.expected_revision,
            "decode challenge revision",
        ) {
            Ok(expected_revision) => expected_revision,
            Err(error) => return Err(error),
        };
        let state = match read_column(self.state, "decode challenge state") {
            Ok(state) => state,
            Err(error) => return Err(error),
        };
        let expires_at = match read_column(self.expires_at, "decode challenge expiry") {
            Ok(expires_at) => expires_at,
            Err(error) => return Err(error),
        };
        let consumed_at = match read_column(self.consumed_at, "decode challenge consumption") {
            Ok(consumed_at) => consumed_at,
            Err(error) => return Err(error),
        };
        Ok(
            ChallengeRow {
                caller_instance,
                subject,
                expected_revision,
                state,
                expires_at,
                consumed_at,
            },
        )
    }
}

/// Reads what inserting a passkey gave back.
pub fn decode_inserted(revision: Result<i64, String>, created_at: Result<Timestamp, String>) -> (r:
    Result<InsertedPasskey, PasskeyPluginError>)
    ensures
        match first_fault(
            fault(column(revision, "decode registered passkey revision")),
            fault(column(created_at, "decode registered passkey time")),
        ) {
            Some(error) => r == Err::<InsertedPasskey, PasskeyPluginError>(error),
            None => r == Ok::<InsertedPasskey, PasskeyPluginError>(
                InsertedPasskey { revision: revision->Ok_0, created_at: created_at->Ok_0 },
            ),
        },
{
    let revision = match read_column(revision, "decode registered passkey revision") {
        Ok(revision) => revision,
        Err(error) => return Err(error),
    };
    let created_at = match read_column(created_at, "decode registered passkey time") {
        Ok(created_at) => created_at,
        Err(error) => return Err(error),
    };
    Ok(InsertedPasskey { revision, created_at })
}

/// Reads what a revocation locked.
pub fn decode_revocable(
    revision: Result<i64, String>,
    revoked_at: Result<Option<Timestamp>, String>,
) -> (r: Result<RevocablePasskey, PasskeyPluginError>)
    ensures
        match first_fault(
            fault(column(revision, "decode revoked passkey revision")),
            fault(column(revoked_at, "decode passkey revocation time")),
        ) {
            Some(error) => r == Err::<RevocablePasskey, PasskeyPluginError>(error),
            None => r == Ok::<RevocablePasskey, PasskeyPluginError>(
                RevocablePasskey { revision: revision->Ok_0, revoked_at: revoked_at->Ok_0 },
            ),
        },
{
    let revision = match read_column(revision, "decode revoked passkey revision") {
        Ok(revision) => revision,
        Err(error) => return Err(error),
    };
    let revoked_at = match read_column(revoked_at, "decode passkey revocation time") {
        Ok(revoked_at) => revoked_at,
        Err(error) => return Err(error),
    };
    Ok(RevocablePasskey { revision, revoked_at })
}

} // verus!
