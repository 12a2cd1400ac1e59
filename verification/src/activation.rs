//! Activating the plugin: its secrets are resolved, its schema is prepared, and then it is ready.

use lenso_postgres_kit::SchemaPlan;
use vstd::prelude::*;
use vstd::string::*;
use vstd::utf8::encode_utf8;
use zeroize::Zeroize;

use crate::active::{ActivePasskey, ActiveView};
use crate::config::PasskeyAuthConfig;
use crate::failure::Failure;
use crate::receipt::sha256;
use crate::schema::{
    one_migration_plan, schema_plan, MIGRATION_NAME, MIGRATION_SQL, MIGRATION_VERSION,
};

verus! {

/// The fewest bytes that a receipt secret may have.
pub const RECEIPT_SECRET_BYTES: usize = 32;

/// Clears a text with `zeroize`'s `Zeroize::zeroize`, which leaves it empty.
#[verifier::external_body]
fn wipe_text(text: &mut String)
    ensures
        final(text)@.len() == 0,
    opens_invariants none
    no_unwind
{
    text.zeroize();
}

/// A text that is wiped when it is dropped.
pub struct Secret {
    text: String,
}

impl View for Secret {
    type V = Seq<char>;

    closed spec fn view(&self) -> Seq<char> {
        self.text@
    }
}

impl Drop for Secret {
    fn drop(&mut self)
        opens_invariants none
        no_unwind
    {
        wipe_text(&mut self.text);
    }
}

impl Secret {
    pub fn new(text: String) -> (r: Secret)
        ensures
            r@ == text@,
    {
        Secret { text }
    }

    pub fn as_str(&self) -> (r: &str)
        ensures
            r@ == self@,
    {
        self.text.as_str()
    }
}

/// What Secrets answered.
pub enum SecretReply {
    Value(Secret),
    Rejected,
    /// Secrets failed at run time.
    Unavailable,
}

/// An activation that waits for the database secret.
pub struct ResolvingDatabase {
    pub config: PasskeyAuthConfig,
}

/// An activation that waits for the receipt secret.
pub struct ResolvingReceiptKey {
    pub config: PasskeyAuthConfig,
    pub database_url: Secret,
}

/// An activation that waits for the schema to be prepared.
pub struct Preparing {
    pub config: PasskeyAuthConfig,
    pub receipt_secret: Secret,
}

/// Refuses a configuration that breaks a rule, with the message of the rule.
pub fn validate_config(config: &PasskeyAuthConfig) -> (r: Result<(), Failure>)
    ensures
        match (config@.broken_rule(), r) {
            (None, Ok(_)) => true,
            (Some(error), Err(Failure::InvalidPlan(detail))) => detail@ == error.text(),
            _ => false,
        },
{
    match config.validate() {
        Ok(_) => Ok(()),
        Err(error) => Err(Failure::InvalidPlan(error.message())),
    }
}

/// Starts an activation: the database reference to resolve, if the configuration keeps the rules.
pub fn start(config: PasskeyAuthConfig) -> (r: Result<(ResolvingDatabase, String), Failure>)
    ensures
        match (config@.broken_rule(), r) {
            (None, Ok((next, reference))) => next.config == config && reference
                == config.database_url_secret,
            (Some(error), Err(Failure::InvalidPlan(detail))) => detail@ == error.text(),
            _ => false,
        },
{
    match validate_config(&config) {
        Ok(_) => {},
        Err(failure) => return Err(failure),
    }
    let reference = config.database_url_secret.clone();
    Ok((ResolvingDatabase { config }, reference))
}

impl ResolvingDatabase {
    /// Takes the database secret; the receipt reference is next.
    pub fn resolved(self, reply: SecretReply) -> (r: Result<(ResolvingReceiptKey, String), Failure>)
        ensures
            match (reply, r) {
                (SecretReply::Value(secret), Ok((next, reference))) => {
                    &&& next.config == self.config
                    &&& next.database_url == secret
                    &&& reference == self.config.receipt_encryption_key_secret
                },
                (SecretReply::Rejected, Err(failure)) => failure == Failure::DatabaseSecretRejected,
                (SecretReply::Unavailable, Err(failure)) => failure == Failure::Dependency,
                _ => false,
            },
    {
        match reply {
            SecretReply::Value(secret) => {
                let reference = self.config.receipt_encryption_key_secret.clone();
                Ok((ResolvingReceiptKey { config: self.config, database_url: secret }, reference))
            },
            SecretReply::Rejected => Err(Failure::DatabaseSecretRejected),
            SecretReply::Unavailable => Err(Failure::Dependency),
        }
    }
}

impl ResolvingReceiptKey {
    /// The schema to prepare, once the receipt secret is known: refused where the secret is
    /// rejected or too short, or where the schema cannot be owned.
    pub open spec fn leads_to(
        self,
        reply: SecretReply,
        r: Result<(Preparing, Secret, SchemaPlan), Failure>,
    ) -> bool {
        match reply {
            SecretReply::Rejected => r matches Err(failure) && failure
                == Failure::ReceiptSecretRejected,
            SecretReply::Unavailable => r matches Err(failure) && failure == Failure::Dependency,
            SecretReply::Value(secret) => if encode_utf8(secret@).len() < RECEIPT_SECRET_BYTES {
                r matches Err(failure) && failure == Failure::ReceiptSecretTooShort
            } else if !crate::schema::is_schema_name(self.config.schema@) {
                r matches Err(Failure::InvalidPlan(detail)) && detail@
                    == crate::schema::refused_schema(self.config.schema@)
            } else {
                &&& r matches Ok((next, database_url, plan))
                &&& next.config == self.config
                &&& next.receipt_secret == secret
                &&& database_url == self.database_url
                &&& plan == one_migration_plan(
                    self.config.schema@,
                    MIGRATION_VERSION,
                    MIGRATION_NAME@,
                    MIGRATION_SQL@,
                )
            },
        }
    }

    /// Takes the receipt secret; the schema is prepared next.
    pub fn resolved(self, reply: SecretReply) -> (r: Result<
        (Preparing, Secret, SchemaPlan),
        Failure,
    >)
        ensures
            self.leads_to(reply, r),
    {
        match reply {
            SecretReply::Value(secret) => {
                if secret.as_str().as_bytes().len() < RECEIPT_SECRET_BYTES {
                    return Err(Failure::ReceiptSecretTooShort);
                }
                match schema_plan(self.config.schema.as_str()) {
                    Ok(plan) => Ok(
                        (
                            Preparing { config: self.config, receipt_secret: secret },
                            self.database_url,
                            plan,
                        ),
                    ),
                    Err(error) => Err(Failure::InvalidPlan(error)),
                }
            },
            SecretReply::Rejected => Err(Failure::ReceiptSecretRejected),
            SecretReply::Unavailable => Err(Failure::Dependency),
        }
    }
}

impl Preparing {
    /// The active plugin, once the schema is prepared; `outcome` is the text of why it is not.
    pub fn prepared(self, outcome: Result<(), String>) -> (r: Result<ActivePasskey, Failure>)
        ensures
            match outcome {
                Err(error) => r matches Err(failure) && failure == Failure::Preparation(error),
                Ok(_) => match self.config@.broken_rule() {
                    Some(error) => r matches Err(Failure::InvalidPlan(detail)) && detail@
                        == error.text(),
                    None => r matches Ok(active) && active@ == (ActiveView {
                        config: self.config@,
                        receipt_key: sha256(encode_utf8(self.receipt_secret@)),
                    }),
                },
            },
    {
        match outcome {
            Err(error) => Err(Failure::Preparation(error)),
            Ok(_) => ActivePasskey::new(self.config, self.receipt_secret.as_str().as_bytes()),
        }
    }
}

} // verus!
