use lenso_auth_passkey::schema::{schema_plan, MIGRATION_SQL};

#[test]
fn schema_owns_one_time_challenges_counters_and_caller_scoped_receipts() {
    let sql = MIGRATION_SQL;
    assert!(sql.contains("credential_id BYTEA NOT NULL UNIQUE"));
    assert!(sql.contains("sign_count BIGINT NOT NULL"));
    assert!(sql.contains("consumed_at TIMESTAMPTZ"));
    assert!(sql.contains("PRIMARY KEY (caller_instance, operation, idempotency_key)"));
    assert!(sql.contains("status IN ('reserved', 'verifying', 'issuing'"));
}

#[test]
fn invalid_schema_is_rejected() {
    assert!(schema_plan("public; DROP SCHEMA public").is_err());
}

#[test]
fn a_plan_owns_its_schema_at_the_one_migration() {
    let plan = schema_plan("passkey_auth").expect("a schema that can be owned");
    assert_eq!(plan.schema(), "passkey_auth");
    assert_eq!(plan.current_version(), 1);
}

#[test]
fn reserved_and_malformed_schemas_are_named_in_the_refusal() {
    for name in ["", "public", "information_schema", "pg_catalog", "Passkeys", "1st", "a-b"] {
        let error = schema_plan(name).expect_err("a schema that cannot be owned");
        assert_eq!(error, format!("invalid owned schema name `{name}`"));
    }
    let longest = "a".repeat(63);
    assert!(schema_plan(&longest).is_ok());
    assert!(schema_plan(&"a".repeat(64)).is_err());
    assert!(schema_plan("a_1").is_ok());
}
