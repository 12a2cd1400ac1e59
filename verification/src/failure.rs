//! What can go wrong outside the domain: storage, randomness, receipts, dependencies.

use vstd::prelude::*;
use vstd::string::*;

verus! {

/// A fault of the plugin itself, with the outside error's text where there is one.
#[derive(Clone, Debug, PartialEq, Eq)]
pub enum PasskeyPluginError {
    Database { operation: &'static str, source: String },
    Random(String),
    SerializeReceipt(String),
    DeserializeReceipt(String),
    ReceiptEncryption,
    ReceiptDecryption,
    Invariant(&'static str),
}

impl PasskeyPluginError {
    /// The message shown for a fault.
    pub open spec fn text(self) -> Seq<char> {
        match self {
            PasskeyPluginError::Database { operation, source } => operation@ + ": "@ + source@,
            PasskeyPluginError::Random(error) => "failed to generate secure random bytes: "@
                + error@,
            PasskeyPluginError::SerializeReceipt(error) =>
                "failed to serialize idempotency receipt: "@ + error@,
            PasskeyPluginError::DeserializeReceipt(error) =>
                "failed to deserialize idempotency receipt: "@ + error@,
            PasskeyPluginError::ReceiptEncryption => "failed to encrypt idempotency receipt"@,
            PasskeyPluginError::ReceiptDecryption => "failed to decrypt idempotency receipt"@,
            PasskeyPluginError::Invariant(detail) => "Plugin invariant failed: "@ + detail@,
        }
    }

    pub fn message(&self) -> (r: String)
        ensures
            r@ == self.text(),
    {
        match self {
            PasskeyPluginError::Database { operation, source } => joined(operation, ": ").concat(
                source.as_str(),
            ),
            PasskeyPluginError::Random(error) => joined(
                "failed to generate secure random bytes: ",
                error.as_str(),
            ),
            PasskeyPluginError::SerializeReceipt(error) => joined(
                "failed to serialize idempotency receipt: ",
                error.as_str(),
            ),
            PasskeyPluginError::DeserializeReceipt(error) => joined(
                "failed to deserialize idempotency receipt: ",
                error.as_str(),
            ),
            PasskeyPluginError::ReceiptEncryption =>
                "failed to encrypt idempotency receipt".to_owned(),
            PasskeyPluginError::ReceiptDecryption =>
                "failed to decrypt idempotency receipt".to_owned(),
            PasskeyPluginError::Invariant(detail) => joined("Plugin invariant failed: ", detail),
        }
    }
}

/// Why an operation or an activation ended without a domain outcome.
#[derive(Clone, Debug, PartialEq, Eq)]
pub enum Failure {
    /// A fault of the plugin.
    Plugin(PasskeyPluginError),
    /// A stored or produced WebAuthn value did not have its JSON form.
    Representation(String),
    /// A timestamp has no RFC 3339 form.
    Timestamp(String),
    /// WebAuthn refused to start a registration.
    StartRegistration(String),
    /// WebAuthn refused to start an authentication.
    StartAuthentication(String),
    /// Identity Directory answered about a subject that was not asked for.
    DirectoryOtherSubject,
    /// Identity Directory answered with an error that its contract does not name.
    DirectoryUnknown(String),
    /// Credential Issuer refused a verified authentication for another reason than a disabled
    /// subject.
    IssuerRejected(String),
    /// The command of a verified authentication was no longer in verification.
    CommandNotAdvanced,
    /// The plugin is not active.
    NotActive,
    /// Secrets refused the database reference.
    DatabaseSecretRejected,
    /// Secrets refused the receipt key reference.
    ReceiptSecretRejected,
    /// The receipt key is too short.
    ReceiptSecretTooShort,
    /// The owned schema could not be prepared.
    Preparation(String),
    /// The configuration does not resolve to a usable plan.
    InvalidPlan(String),
    /// A dependency failed at run time; its own failure is passed on.
    Dependency,
}

impl Failure {
    /// The detail reported for a failure; a failure of a dependency has none of its own.
    pub open spec fn text(self) -> Seq<char> {
        match self {
            Failure::Plugin(error) => error.text(),
            Failure::Representation(error) => "invalid internal WebAuthn representation: "@
                + error@,
            Failure::Timestamp(error) => "failed to format passkey timestamp: "@ + error@,
            Failure::StartRegistration(error) => "failed to start WebAuthn registration: "@
                + error@,
            Failure::StartAuthentication(error) => "failed to start WebAuthn authentication: "@
                + error@,
            Failure::DirectoryOtherSubject =>
                "Identity Directory returned another subject for passkey status"@,
            Failure::DirectoryUnknown(error) =>
                "Identity Directory returned an unknown passkey status error: "@ + error@,
            Failure::IssuerRejected(error) =>
                "Credential Issuer rejected verified passkey authentication: "@ + error@,
            Failure::CommandNotAdvanced => "passkey authentication command did not advance"@,
            Failure::NotActive => "Passkey Auth is not active"@,
            Failure::DatabaseSecretRejected => "passkey database secret was rejected"@,
            Failure::ReceiptSecretRejected => "passkey receipt encryption secret was rejected"@,
            Failure::ReceiptSecretTooShort =>
                "passkey receipt encryption secret must contain at least 32 bytes"@,
            Failure::Preparation(error) => error@,
            Failure::InvalidPlan(error) => error@,
            Failure::Dependency => Seq::empty(),
        }
    }

    pub fn detail(&self) -> (r: String)
        ensures
            r@ == self.text(),
    {
        match self {
            Failure::Plugin(error) => error.message(),
            Failure::Representation(error) => joined(
                "invalid internal WebAuthn representation: ",
                error.as_str(),
            ),
            Failure::Timestamp(error) => joined(
                "failed to format passkey timestamp: ",
                error.as_str(),
            ),
            Failure::StartRegistration(error) => joined(
                "failed to start WebAuthn registration: ",
                error.as_str(),
            ),
            Failure::StartAuthentication(error) => joined(
                "failed to start WebAuthn authentication: ",
                error.as_str(),
            ),
            Failure::DirectoryOtherSubject =>
                "Identity Directory returned another subject for passkey status".to_owned(),
            Failure::DirectoryUnknown(error) => joined(
                "Identity Directory returned an unknown passkey status error: ",
                error.as_str(),
            ),
            Failure::IssuerRejected(error) => joined(
                "Credential Issuer rejected verified passkey authentication: ",
                error.as_str(),
            ),
            Failure::CommandNotAdvanced =>
                "passkey authentication command did not advance".to_owned(),
            Failure::NotActive => "Passkey Auth is not active".to_owned(),
            Failure::DatabaseSecretRejected => "passkey database secret was rejected".to_owned(),
            Failure::ReceiptSecretRejected =>
                "passkey receipt encryption secret was rejected".to_owned(),
            Failure::ReceiptSecretTooShort =>
                "passkey receipt encryption secret must contain at least 32 bytes".to_owned(),
            Failure::Preparation(error) => error.clone(),
            Failure::InvalidPlan(error) => error.clone(),
            Failure::Dependency => {
                proof {
                    reveal_strlit("");
                }
                let r = "".to_owned();
                assert(r@ =~= Seq::<char>::empty());
                r
            },
        }
    }
}

/// One text after another.
pub(crate) fn joined(front: &str, back: &str) -> (r: String)
    ensures
        r@ == front@ + back@,
{
    front.to_owned().concat(back)
}

} // verus!
