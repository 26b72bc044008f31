use fediurl::models::UserId;
use fediurl::token::{issue, validate, SESSION_LIFETIME_SECONDS};

const KEY: u64 = 0x5eed_1234_abcd_9876;

#[test]
fn validate_right_after_issue_yields_the_user() {
    let now = 1_700_000_000;
    let token = issue(UserId(42), KEY, now);
    let got = validate(token.as_str(), KEY, now);
    assert!(matches!(got, Some(UserId(42))));
}

#[test]
fn validate_just_before_expiry_yields_the_user() {
    let now = 1_700_000_000;
    let token = issue(UserId(7), KEY, now);
    let got = validate(token.as_str(), KEY, now + SESSION_LIFETIME_SECONDS - 1);
    assert!(matches!(got, Some(UserId(7))));
}

#[test]
fn validate_after_lifetime_fails() {
    let now = 1_700_000_000;
    let token = issue(UserId(7), KEY, now);
    let got = validate(token.as_str(), KEY, now + SESSION_LIFETIME_SECONDS);
    assert!(got.is_none());
}

#[test]
fn validate_with_wrong_key_fails() {
    let now = 1_700_000_000;
    let token = issue(UserId(7), KEY, now);
    let got = validate(token.as_str(), KEY + 1, now);
    assert!(got.is_none());
}

#[test]
fn tampered_token_fails() {
    let now = 1_700_000_000;
    let token = issue(UserId(7), KEY, now);
    // Raise the user id by one without recomputing the tag.
    let mut tampered = String::from("8");
    tampered.push_str(&token[1..]);
    let got = validate(tampered.as_str(), KEY, now);
    assert!(got.is_none());
}

#[test]
fn malformed_tokens_fail() {
    let now = 1_700_000_000;
    for bad in [
        "",
        ".",
        "..",
        "1.2",
        "1.2.3.4",
        "a.b.c",
        "01.2.3",
        "1..3",
        "1.2.",
        "18446744073709551616.1.1",
    ] {
        assert!(validate(bad, KEY, now).is_none(), "accepted {:?}", bad);
    }
}

#[test]
fn token_is_three_decimal_fields() {
    let now = 1_700_000_000;
    let token = issue(UserId(1), KEY, now);
    let parts: Vec<&str> = token.split('.').collect();
    assert_eq!(parts.len(), 3);
    assert_eq!(parts[0], "1");
    assert_eq!(parts[1], (now + SESSION_LIFETIME_SECONDS).to_string());
    assert!(parts[2].parse::<u64>().is_ok());
}
