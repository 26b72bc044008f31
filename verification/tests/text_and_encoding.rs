use fediurl::encode::urlencode;
use fediurl::string_ext::StringExt;
use fediurl::text::{find_char, join_strings, parse_decimal, str_eq, u64_to_string};

#[test]
fn numbers_render_in_decimal() {
    assert_eq!(u64_to_string(0), "0");
    assert_eq!(u64_to_string(7), "7");
    assert_eq!(u64_to_string(42), "42");
    assert_eq!(u64_to_string(604800), "604800");
    assert_eq!(u64_to_string(u64::MAX), "18446744073709551615");
}

#[test]
fn decimal_parsing_round_trips() {
    for n in [0u64, 1, 9, 10, 99, 604800, u64::MAX] {
        assert_eq!(parse_decimal(u64_to_string(n).as_str()), Some(n));
    }
}

#[test]
fn decimal_parsing_rejects_non_canonical_input() {
    for bad in ["", "x", "1x", "01", "00", "-1", " 1", "18446744073709551616"] {
        assert_eq!(parse_decimal(bad), None, "accepted {:?}", bad);
    }
}

#[test]
fn urlencode_keeps_unreserved_bytes() {
    assert_eq!(urlencode("AZaz09*-._"), "AZaz09*-._");
}

#[test]
fn urlencode_escapes_the_rest() {
    assert_eq!(urlencode("a b&c"), "a+b%26c");
    assert_eq!(urlencode("https://x/y?z"), "https%3A%2F%2Fx%2Fy%3Fz");
    assert_eq!(urlencode("read:search"), "read%3Asearch");
}

#[test]
fn urlencode_escapes_utf8_bytes() {
    assert_eq!(urlencode("é"), "%C3%A9");
}

#[test]
fn join_inserts_the_separator_between_parts() {
    assert_eq!(join_strings(&vec![], ", "), "");
    assert_eq!(join_strings(&vec!["a".to_string()], ", "), "a");
    assert_eq!(
        join_strings(&vec!["a".to_string(), "b".to_string(), "c".to_string()], ", "),
        "a, b, c"
    );
}

#[test]
fn humanise_replaces_separator_punctuation() {
    assert_eq!("instance_name.field".humanise(), "instance name field");
    assert_eq!("plain".humanise(), "plain");
    assert_eq!("".humanise(), "");
}

#[test]
fn str_eq_compares_contents() {
    assert!(str_eq("abc", "abc"));
    assert!(!str_eq("abc", "abd"));
    assert!(!str_eq("abc", "ab"));
}

#[test]
fn find_char_returns_first_hit_or_length() {
    assert_eq!(find_char("a.b.c", '.'), 1);
    assert_eq!(find_char("abc", '.'), 3);
    assert_eq!(find_char("", '.'), 0);
}
