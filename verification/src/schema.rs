//! The owned PostgreSQL schema.

use lenso_postgres_kit::{Migration, SchemaPlan};
use vstd::prelude::*;

verus! {

/// The version of the migration that creates the schema.
pub const MIGRATION_VERSION: u64 = 1;

/// The name of the migration that creates the schema.
pub const MIGRATION_NAME: &'static str = "create-passkey-state";

/// The migration that creates the schema: subjects with their credential-set revision, passkeys
/// with their counters, one-time challenges, and caller-scoped command receipts.
pub const MIGRATION_SQL: &'static str = "CREATE TABLE passkey_subjects (
    subject_id TEXT PRIMARY KEY CHECK (char_length(subject_id) BETWEEN 1 AND 256),
    webauthn_user_id UUID NOT NULL UNIQUE,
    revision BIGINT NOT NULL DEFAULT 0 CHECK (revision >= 0),
    created_at TIMESTAMPTZ NOT NULL DEFAULT now(),
    updated_at TIMESTAMPTZ NOT NULL DEFAULT now()
);

CREATE TABLE passkeys (
    passkey_id TEXT PRIMARY KEY CHECK (char_length(passkey_id) BETWEEN 1 AND 128),
    subject_id TEXT NOT NULL REFERENCES passkey_subjects (subject_id),
    credential_id BYTEA NOT NULL UNIQUE,
    public_key JSONB NOT NULL,
    passkey JSONB NOT NULL,
    label TEXT NOT NULL CHECK (octet_length(label) BETWEEN 1 AND 128),
    sign_count BIGINT NOT NULL CHECK (sign_count >= 0),
    revision BIGINT NOT NULL DEFAULT 1 CHECK (revision >= 1),
    created_at TIMESTAMPTZ NOT NULL DEFAULT now(),
    last_used_at TIMESTAMPTZ,
    revoked_at TIMESTAMPTZ
);

CREATE INDEX passkeys_by_subject ON passkeys (subject_id, created_at, passkey_id);

CREATE TABLE passkey_challenges (
    challenge_id TEXT PRIMARY KEY CHECK (char_length(challenge_id) BETWEEN 1 AND 128),
    kind TEXT NOT NULL CHECK (kind IN ('registration', 'authentication')),
    caller_instance TEXT NOT NULL CHECK (char_length(caller_instance) BETWEEN 1 AND 128),
    subject_id TEXT NOT NULL REFERENCES passkey_subjects (subject_id),
    expected_revision BIGINT NOT NULL CHECK (expected_revision >= 0),
    state JSONB NOT NULL,
    public_options JSONB NOT NULL,
    created_at TIMESTAMPTZ NOT NULL DEFAULT now(),
    expires_at TIMESTAMPTZ NOT NULL,
    consumed_at TIMESTAMPTZ,
    consumed_by_operation TEXT,
    consumed_by_idempotency_key TEXT
);

CREATE INDEX passkey_challenges_by_expiry ON passkey_challenges (expires_at);

CREATE TABLE passkey_commands (
    caller_instance TEXT NOT NULL CHECK (char_length(caller_instance) BETWEEN 1 AND 128),
    operation TEXT NOT NULL,
    idempotency_key TEXT NOT NULL CHECK (char_length(idempotency_key) BETWEEN 1 AND 128),
    intent_hash BYTEA NOT NULL CHECK (octet_length(intent_hash) = 32),
    status TEXT NOT NULL CHECK (
        status IN ('reserved', 'verifying', 'issuing', 'completed_success', 'completed_error')
    ),
    response_nonce BYTEA,
    response_ciphertext BYTEA,
    error_code TEXT,
    created_at TIMESTAMPTZ NOT NULL DEFAULT now(),
    updated_at TIMESTAMPTZ NOT NULL DEFAULT now(),
    completed_at TIMESTAMPTZ,
    PRIMARY KEY (caller_instance, operation, idempotency_key),
    CHECK ((status = 'completed_success') = (response_nonce IS NOT NULL)),
    CHECK ((status = 'completed_success') = (response_ciphertext IS NOT NULL)),
    CHECK ((status = 'completed_error') = (error_code IS NOT NULL)),
    CHECK ((status IN ('completed_success', 'completed_error')) = (completed_at IS NOT NULL))
);

CREATE INDEX passkey_commands_by_completion ON passkey_commands (completed_at);
";

/// `lenso_postgres_kit`'s plan of one owned schema.
#[verifier::external_type_specification]
#[verifier::external_body]
pub struct ExSchemaPlan(SchemaPlan);

/// A character that may follow the first one of a schema name.
pub open spec fn schema_char(c: char) -> bool {
    'a' <= c <= 'z' || '0' <= c <= '9' || c == '_'
}

/// A name that a plugin may own: a lower-case identifier that PostgreSQL does not reserve.
pub open spec fn is_schema_name(s: Seq<char>) -> bool {
    &&& 0 < s.len() <= 63
    &&& 'a' <= s[0] <= 'z'
    &&& forall|i: int| 0 < i < s.len() ==> schema_char(#[trigger] s[i])
    &&& s != "public"@
    &&& s != "information_schema"@
    &&& !("pg_"@.is_prefix_of(s))
}

/// The message for a schema that cannot be owned.
pub open spec fn refused_schema(schema: Seq<char>) -> Seq<char> {
    "invalid owned schema name `"@ + schema + "`"@
}

/// A name that a migration may have.
pub open spec fn is_migration_name(s: Seq<char>) -> bool {
    &&& 0 < s.len() <= 128
    &&& 'a' <= s[0] <= 'z'
    &&& forall|i: int| 0 < i < s.len() ==> schema_char(#[trigger] s[i]) || s[i] == '-'
}

/// The plan that owns a schema and has one migration.
pub uninterp spec fn one_migration_plan(
    schema: Seq<char>,
    version: u64,
    name: Seq<char>,
    sql: Seq<char>,
) -> SchemaPlan;

/// Makes the plan of one migration with `lenso_postgres_kit`'s `SchemaPlan::new`.
///
/// The plan is a function of the schema's name and of the migration. A first migration has version 1,
/// a name that it may have, and a text that is not blank, as that of the schema is not. There is then
/// a plan exactly where the schema may be owned; otherwise the error's text names the schema. A plan
/// refers to its migrations for as long as the program runs.
#[verifier::external_body]
fn plan_one_migration(schema: &str, version: u64, name: &'static str, sql: &'static str) -> (r:
    Result<SchemaPlan, String>)
    requires
        version == 1,
        is_migration_name(name@),
        sql@ == MIGRATION_SQL@,
    ensures
        r is Ok <==> is_schema_name(schema@),
        r matches Ok(plan) ==> plan == one_migration_plan(schema@, version, name@, sql@),
        r matches Err(error) ==> error@ == refused_schema(schema@),
{
    SchemaPlan::new(schema, vec![Migration::new(version, name, sql)].leak())
        .map_err(|error| error.to_string())
}

/// The plan of the owned schema; it is refused exactly where the name cannot be owned.
pub fn schema_plan(schema: &str) -> (r: Result<SchemaPlan, String>)
    ensures
        r is Ok <==> is_schema_name(schema@),
        r matches Ok(plan) ==> plan == one_migration_plan(
            schema@,
            MIGRATION_VERSION,
            MIGRATION_NAME@,
            MIGRATION_SQL@,
        ),
        r matches Err(error) ==> error@ == refused_schema(schema@),
{
    proof {
        reveal_strlit("create-passkey-state");
    }
    plan_one_migration(schema, MIGRATION_VERSION, MIGRATION_NAME, MIGRATION_SQL)
}

} // verus!
