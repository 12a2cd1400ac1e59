use lenso_auth_passkey::contract::Nullable;
use lenso_auth_passkey::text::{
    ends_with, parse_revision, same_text, signed_text, trim, unsigned_text, valid_human_name,
    valid_idempotency_key, valid_name, valid_secret_reference, valid_subject, valid_token,
};

#[test]
fn tokens_are_bounded_runs_of_token_characters() {
    assert!(valid_token("Ab9-_.:", 7));
    assert!(!valid_token("Ab9-_.:", 6));
    assert!(!valid_token("", 6));
    assert!(!valid_token("a b", 6));
    assert!(!valid_token("a/b", 6));
    assert!(!valid_token("\u{e9}", 6));
}

#[test]
fn each_kind_of_token_has_its_length() {
    let long = "a".repeat(129);
    let longer = "a".repeat(257);
    assert!(valid_subject(&long) && !valid_subject(&longer));
    assert!(valid_secret_reference(&long) && !valid_secret_reference(&longer));
    assert!(!valid_idempotency_key(&long) && valid_idempotency_key(&long[..128]));
    assert!(!valid_name(&long) && valid_name(&long[..128]));
}

#[test]
fn human_names_are_readable_and_bounded_in_bytes() {
    assert!(valid_human_name("Ada", 3));
    assert!(!valid_human_name("Adas", 3));
    assert!(!valid_human_name("\u{e9}\u{e9}", 3));
    assert!(valid_human_name("\u{e9}\u{e9}", 4));
    assert!(!valid_human_name(" \u{3000}\t", 16));
    assert!(!valid_human_name("a\u{7}b", 16));
    assert!(!valid_human_name("a\u{85}b", 16));
    assert!(valid_human_name(" Ada ", 16));
}

#[test]
fn trimming_drops_white_space_at_both_ends() {
    assert_eq!(trim(" \u{a0}my key\n"), "my key");
    assert_eq!(trim("my key"), "my key");
    assert_eq!(trim(" \t "), "");
}

#[test]
fn revisions_are_canonical_decimals() {
    assert_eq!(parse_revision("0"), Some(0));
    assert_eq!(parse_revision("42"), Some(42));
    assert_eq!(parse_revision("9223372036854775807"), Some(i64::MAX));
    for text in ["", "-1", "+1", "01", "00", " 1", "1 ", "1.0", "9223372036854775808", "x"] {
        assert_eq!(parse_revision(text), None, "{text}");
    }
}

#[test]
fn numbers_read_back_from_their_text() {
    for n in [0, 1, 9, 10, 1234567890, i64::MAX] {
        assert_eq!(signed_text(n), n.to_string());
        assert_eq!(parse_revision(&signed_text(n)), Some(n));
    }
    assert_eq!(signed_text(-7), "-7");
    assert_eq!(signed_text(i64::MIN), i64::MIN.to_string());
    assert_eq!(unsigned_text(u64::MAX), u64::MAX.to_string());
}

#[test]
fn texts_compare_by_their_characters() {
    assert!(same_text("abc", "abc"));
    assert!(!same_text("abc", "abd"));
    assert!(!same_text("abc", "ab"));
    assert!(ends_with("login.example.com", ".example.com"));
    assert!(ends_with("x", ""));
    assert!(!ends_with("myexample.com", ".example.com"));
    assert!(!ends_with("com", "example.com"));
}

#[test]
fn nullable_schemas_are_named_after_their_value() {
    assert_eq!(Nullable::<String>::schema_name("String"), "Nullable_String");
    assert_eq!(Nullable::<String>::schema_id("string"), "Nullable<string>");
}
