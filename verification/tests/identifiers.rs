use lenso_auth_passkey::identifier::{identifier_of, random_id};
use lenso_auth_passkey::instant::{format_time, Timestamp, END_NANOS, YEAR_ZERO_NANOS};
use lenso_auth_passkey::text::valid_token;

#[test]
fn identifiers_are_url_safe_base64_after_their_prefix() {
    assert_eq!(identifier_of("pk_", b""), "pk_");
    assert_eq!(identifier_of("pk_", b"f"), "pk_Zg");
    assert_eq!(identifier_of("pk_", b"fo"), "pk_Zm8");
    assert_eq!(identifier_of("pk_", b"foo"), "pk_Zm9v");
    assert_eq!(identifier_of("", &[0xfb, 0xff, 0xbe]), "-_--");
    assert_eq!(identifier_of("pkr_", &[0_u8; 24]).len(), 36);
}

#[test]
fn random_identifiers_are_tokens_and_differ() {
    let a = random_id("pka_").expect("random bytes");
    let b = random_id("pka_").expect("random bytes");
    assert_ne!(a, b);
    assert!(a.starts_with("pka_"));
    assert_eq!(a.len(), 36);
    assert!(valid_token(&a, 128) && valid_token(&b, 128));
}

#[test]
fn instants_are_written_by_rfc_3339() {
    let epoch = Timestamp { unix_nanos: 0 };
    assert_eq!(format_time(epoch).as_deref(), Ok("1970-01-01T00:00:00Z"));
    let later = epoch.plus_seconds(86_400 + 3_661);
    assert_eq!(format_time(later).as_deref(), Ok("1970-01-02T01:01:01Z"));
    let half = Timestamp { unix_nanos: 500_000_000 };
    assert_eq!(format_time(half).as_deref(), Ok("1970-01-01T00:00:00.5Z"));
}

#[test]
fn only_the_years_0_to_9999_are_written() {
    let first = Timestamp { unix_nanos: YEAR_ZERO_NANOS };
    assert_eq!(format_time(first).as_deref(), Ok("0000-01-01T00:00:00Z"));
    let last = Timestamp { unix_nanos: END_NANOS - 1 };
    assert_eq!(format_time(last).as_deref(), Ok("9999-12-31T23:59:59.999999999Z"));
    let before = format_time(Timestamp { unix_nanos: YEAR_ZERO_NANOS - 1 });
    let message = before.expect_err("a year that is not written").detail();
    assert!(message.starts_with("failed to format passkey timestamp: "));
    assert!(format_time(Timestamp { unix_nanos: END_NANOS }).is_err());
}

#[test]
fn the_current_time_leaves_room_for_the_longest_span() {
    assert!(Timestamp { unix_nanos: 0 }.can_reach(u64::MAX / 1_000_000_000));
    assert!(Timestamp { unix_nanos: END_NANOS - 1 }.can_reach(0));
    assert!(!Timestamp { unix_nanos: END_NANOS - 1 }.can_reach(1));
    assert!(!Timestamp { unix_nanos: END_NANOS }.can_reach(0));
    assert!(!Timestamp { unix_nanos: i128::MIN }.can_reach(0));
}
