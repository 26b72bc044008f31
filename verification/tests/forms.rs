use fediurl::form::validate::{domain, uri_absolute, Host};
use fediurl::form::{
    field_errors, login_error_message, trim, ContextExt, FieldError, FormContext, NonEmptyString,
};

fn context() -> FormContext {
    FormContext {
        fields: vec![
            ("instance".to_string(), "mastodon.example".to_string()),
            ("other".to_string(), "value".to_string()),
        ],
        errors: vec![
            FieldError { name: Some("instance_name".to_string()), message: "cannot be blank".to_string() },
            FieldError { name: None, message: "general failure".to_string() },
            FieldError { name: Some("remote.url".to_string()), message: "is not a valid URL".to_string() },
        ],
    }
}

#[test]
fn trim_strips_surrounding_whitespace() {
    assert_eq!(trim("  mastodon.example \t\n"), "mastodon.example");
    assert_eq!(trim("inner space kept"), "inner space kept");
    assert_eq!(trim("   "), "");
    assert_eq!(trim(""), "");
}

#[test]
fn non_empty_string_trims_and_rejects_blank() {
    let ok = NonEmptyString::from_value(" mastodon.example ").unwrap();
    assert_eq!(ok.as_str(), "mastodon.example");
    let blank = NonEmptyString::from_value("   ");
    assert!(matches!(blank, Err(m) if m == "cannot be blank"));
}

#[test]
fn value_for_returns_first_match_or_empty() {
    let ctx = context();
    assert_eq!(ctx.value_for("instance"), "mastodon.example");
    assert_eq!(ctx.value_for("missing"), "");
}

#[test]
fn fields_with_errors_joins_humanised_names() {
    let ctx = context();
    assert_eq!(ctx.fields_with_errors(), "instance name, remote url");
}

#[test]
fn login_error_message_names_the_failing_fields() {
    let ctx = context();
    assert_eq!(
        login_error_message(&ctx),
        "Unable to log in. Check these fields for errors: instance name, remote url"
    );
}

#[test]
fn field_errors_lists_messages_for_one_field() {
    let ctx = context();
    let msgs = field_errors(&ctx, "instance_name");
    assert_eq!(msgs, vec!["cannot be blank".to_string()]);
    let none = field_errors(&ctx, "unknown");
    assert!(none.is_empty());
}

#[test]
fn domain_accepts_hosts_with_and_without_port() {
    let plain = domain("mastodon.example").unwrap();
    assert_eq!(plain.name, "mastodon.example");
    assert_eq!(plain.port, None);
    let with_port: Host = domain("mastodon.example:8443").unwrap();
    assert_eq!(with_port.name, "mastodon.example");
    assert_eq!(with_port.port, Some(8443));
    assert_eq!(domain("localhost:080").unwrap().port, Some(80));
}

#[test]
fn domain_rejects_invalid_hosts() {
    for bad in ["", "bad host", "host:", "host:99999", "host:1:2", "ho/st"] {
        assert!(domain(bad).is_err(), "accepted {:?}", bad);
    }
}

#[test]
fn uri_absolute_accepts_http_and_https_urls() {
    for good in [
        "https://mastodon.example/@user",
        "http://user@mastodon.example:8080/path?q#f",
        "https://h",
    ] {
        let value = NonEmptyString::from_value(good).unwrap();
        assert!(uri_absolute(&value).is_ok(), "rejected {:?}", good);
    }
}

#[test]
fn uri_absolute_reports_the_first_failure() {
    let cases = [
        ("nocolonhere", "is not a valid URL"),
        ("1http://x", "is not a valid URL"),
        ("ftp://x", "scheme must be http or https"),
        ("http:path", "is incomplete"),
        ("http://", "host is missing"),
        ("http://user@:80/", "host is missing"),
    ];
    for (input, expected) in cases {
        let value = NonEmptyString::from_value(input).unwrap();
        let got = uri_absolute(&value);
        assert!(matches!(got, Err(m) if m == expected), "for {:?}", input);
    }
}
