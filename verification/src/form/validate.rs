//! Validation of user-supplied locations: instance domains (a host with an
//! optional port) and absolute http(s) URLs.

use vstd::prelude::*;
use vstd::string::*;

use crate::form::NonEmptyString;
use crate::text::{all_digits, dec_val, find_char, first_index, is_digit, str_eq,
    lemma_dec_val_prefix_le};

verus! {

/// A validated host: its name and optional port.
pub struct Host {
    pub name: String,
    pub port: Option<u16>,
}

/// Characters accepted in a host name.
pub open spec fn is_host_char(c: char) -> bool {
    ||| is_digit(c)
    ||| 97 <= c as u32 <= 122
    ||| 65 <= c as u32 <= 90
    ||| c == '-'
    ||| c == '.'
    ||| c == '_'
    ||| c == '~'
}

/// A non-empty run of host characters.
pub open spec fn valid_host_name(s: Seq<char>) -> bool {
    s.len() > 0 && forall|i: int| 0 <= i < s.len() ==> is_host_char(#[trigger] s[i])
}

/// A non-empty run of digits denoting a port.
pub open spec fn valid_port(s: Seq<char>) -> bool {
    s.len() > 0 && all_digits(s) && dec_val(s) <= 65535
}

/// What a domain field must hold: a host name, optionally followed by a
/// colon and a port.
pub open spec fn host_spec(s: Seq<char>) -> Option<(Seq<char>, Option<u16>)> {
    let c = first_index(s, ':');
    if c == s.len() {
        if valid_host_name(s) {
            Some((s, None::<u16>))
        } else {
            None
        }
    } else {
        let name = s.subrange(0, c);
        let port = s.subrange(c + 1, s.len() as int);
        if valid_host_name(name) && valid_port(port) {
            Some((name, Some(dec_val(port) as u16)))
        } else {
            None
        }
    }
}

fn is_host_char_exec(c: char) -> (r: bool)
    ensures
        r == is_host_char(c),
{
    let u = c as u32;
    (48 <= u && u <= 57) || (97 <= u && u <= 122) || (65 <= u && u <= 90) || c == '-' || c == '.'
        || c == '_' || c == '~'
}

fn check_host_name(s: &str) -> (r: bool)
    ensures
        r == valid_host_name(s@),
{
    let len = s.unicode_len();
    if len == 0 {
        return false;
    }
    let mut i: usize = 0;
    while i < len
        invariant
            0 <= i <= len,
            len == s@.len(),
            forall|j: int| 0 <= j < i ==> is_host_char(#[trigger] s@[j]),
        decreases len - i,
    {
        if !is_host_char_exec(s.get_char(i)) {
            return false;
        }
        i = i + 1;
    }
    true
}

/// The port a digit string denotes, when it is one.
fn parse_port(s: &str) -> (r: Option<u16>)
    ensures
        valid_port(s@) ==> r == Some(dec_val(s@) as u16),
        !valid_port(s@) ==> r is None,
{
    let len = s.unicode_len();
    if len == 0 {
        return None;
    }
    let mut acc: u32 = 0;
    let mut i: usize = 0;
    while i < len
        invariant
            0 <= i <= len,
            len == s@.len(),
            all_digits(s@.take(i as int)),
            acc == dec_val(s@.take(i as int)),
            acc <= 65535,
        decreases len - i,
    {
        let c = s.get_char(i);
        let u = c as u32;
        if u < 48 || u > 57 {
            assert(!all_digits(s@)) by {
                assert(s@[i as int] == c);
            }
            return None;
        }
        let d = u - 48;
        proof {
            assert(s@.take(i as int + 1).drop_last() =~= s@.take(i as int));
            assert(s@.take(i as int + 1).last() == s@[i as int]);
        }
        if acc > (65535 - d) / 10 {
            proof {
                assert(dec_val(s@.take(i as int + 1)) == acc * 10 + d);
                assert(acc * 10 + d > 65535) by (nonlinear_arith)
                    requires
                        acc > (65535 - d) / 10,
                        d <= 9,
                ;
                lemma_dec_val_prefix_le(s@, i as int + 1);
                assert(!valid_port(s@));
            }
            return None;
        }
        acc = acc * 10 + d;
        i = i + 1;
        proof {
            assert(all_digits(s@.take(i as int))) by {
                assert(s@.take(i as int) =~= s@.take(i as int - 1).push(c));
                assert(forall|j: int|
                    0 <= j < i ==> s@.take(i as int)[j] == #[trigger] s@.take(i as int - 1).push(
                        c,
                    )[j]);
            }
        }
    }
    proof {
        assert(s@.take(len as int) =~= s@);
    }
    Some(acc as u16)
}

/// Validates an instance domain: a host name with an optional port. The
/// returned host carries exactly the validated parts; a rejection carries
/// one fixed message rather than a per-character reason.
pub fn domain(value: &str) -> (r: Result<Host, String>)
    ensures
        host_spec(value@) matches Some((n, p)) ==> (r matches Ok(h) && h.name@ == n && h.port
            == p),
        host_spec(value@) is None ==> (r matches Err(m) && m@ == "instance is not valid"@),
{
    let len = value.unicode_len();
    let c = find_char(value, ':');
    if c == len {
        if check_host_name(value) {
            Ok(Host { name: value.to_owned(), port: None })
        } else {
            Err("instance is not valid".to_owned())
        }
    } else {
        let name = value.substring_char(0, c);
        let port_str = value.substring_char(c + 1, len);
        if !check_host_name(name) {
            return Err("instance is not valid".to_owned());
        }
        match parse_port(port_str) {
            Some(p) => Ok(Host { name: name.to_owned(), port: Some(p) }),
            None => Err("instance is not valid".to_owned()),
        }
    }
}

/// Characters accepted in a URL scheme after the first.
pub open spec fn is_scheme_char(c: char) -> bool {
    ||| is_digit(c)
    ||| 97 <= c as u32 <= 122
    ||| 65 <= c as u32 <= 90
    ||| c == '+'
    ||| c == '-'
    ||| c == '.'
}

/// A scheme: a letter followed by scheme characters.
pub open spec fn valid_scheme(s: Seq<char>) -> bool {
    &&& s.len() > 0
    &&& (97 <= s[0] as u32 <= 122 || 65 <= s[0] as u32 <= 90)
    &&& forall|i: int| 0 <= i < s.len() ==> is_scheme_char(#[trigger] s[i])
}

/// A character that ends the authority part of a URL.
pub open spec fn is_authority_end(c: char) -> bool {
    c == '/' || c == '?' || c == '#'
}

/// Length of the authority part: up to the first slash, question mark or
/// hash.
pub open spec fn authority_end(s: Seq<char>) -> int
    decreases s.len(),
{
    if s.len() == 0 {
        0
    } else if is_authority_end(s[0]) {
        0
    } else {
        1 + authority_end(s.drop_first())
    }
}

proof fn lemma_authority_end_char(s: Seq<char>)
    ensures
        0 <= authority_end(s) <= s.len(),
        authority_end(s) < s.len() ==> is_authority_end(s[authority_end(s)]),
        forall|j: int| 0 <= j < authority_end(s) ==> !is_authority_end(#[trigger] s[j]),
    decreases s.len(),
{
    if s.len() == 0 {
    } else if is_authority_end(s[0]) {
    } else {
        lemma_authority_end_char(s.drop_first());
        assert forall|j: int| 0 <= j < authority_end(s) implies !is_authority_end(
            #[trigger] s[j],
        ) by {
            if j > 0 {
                assert(s.drop_first()[j - 1] == s[j]);
                assert(j - 1 < authority_end(s.drop_first()));
            }
        }
    }
}

proof fn lemma_authority_end_unique(s: Seq<char>, i: int)
    requires
        0 <= i <= s.len(),
        i < s.len() ==> is_authority_end(s[i]),
        i == s.len() ==> (forall|j: int| 0 <= j < s.len() ==> !is_authority_end(#[trigger] s[j])),
        forall|j: int| 0 <= j < i ==> !is_authority_end(#[trigger] s[j]),
    ensures
        authority_end(s) == i,
{
    lemma_authority_end_char(s);
    let a = authority_end(s);
    if a < i {
        assert(!is_authority_end(s[a]));
    } else if i < a {
        assert(!is_authority_end(s[i]));
    }
}

fn find_authority_end(s: &str) -> (r: usize)
    ensures
        r == authority_end(s@),
        r <= s@.len(),
{
    let len = s.unicode_len();
    let mut i: usize = 0;
    while i < len
        invariant
            0 <= i <= len,
            len == s@.len(),
            forall|j: int| 0 <= j < i ==> !is_authority_end(#[trigger] s@[j]),
        decreases len - i,
    {
        let c = s.get_char(i);
        if c == '/' || c == '?' || c == '#' {
            proof {
                lemma_authority_end_unique(s@, i as int);
            }
            return i;
        }
        i = i + 1;
    }
    proof {
        lemma_authority_end_unique(s@, len as int);
    }
    len
}

/// The host inside an authority: what stands after any userinfo and before
/// any port.
pub open spec fn host_of_authority(a: Seq<char>) -> Seq<char> {
    let u = first_index(a, '@');
    let rest = if u == a.len() {
        a
    } else {
        a.subrange(u + 1, a.len() as int)
    };
    rest.subrange(0, first_index(rest, ':'))
}

/// Why an absolute URL is rejected, or nothing when it is acceptable: it
/// must parse as scheme "://" authority, the scheme must be http or https,
/// and the authority's host must be non-empty.
pub open spec fn uri_absolute_spec(s: Seq<char>) -> Option<Seq<char>> {
    let c = first_index(s, ':');
    if c == s.len() || !valid_scheme(s.subrange(0, c)) {
        Some("is not a valid URL"@)
    } else if !(s.subrange(0, c) == "http"@ || s.subrange(0, c) == "https"@) {
        Some("scheme must be http or https"@)
    } else if !(s.len() >= c + 3 && s[c + 1] == '/' && s[c + 2] == '/') {
        Some("is incomplete"@)
    } else {
        let after = s.subrange(c + 3, s.len() as int);
        let a = after.subrange(0, authority_end(after));
        if host_of_authority(a).len() == 0 {
            Some("host is missing"@)
        } else {
            None
        }
    }
}

fn check_scheme(s: &str) -> (r: bool)
    ensures
        r == valid_scheme(s@),
{
    let len = s.unicode_len();
    if len == 0 {
        return false;
    }
    let first = s.get_char(0) as u32;
    if !((97 <= first && first <= 122) || (65 <= first && first <= 90)) {
        return false;
    }
    let mut i: usize = 0;
    while i < len
        invariant
            0 <= i <= len,
            len == s@.len(),
            forall|j: int| 0 <= j < i ==> is_scheme_char(#[trigger] s@[j]),
        decreases len - i,
    {
        let c = s.get_char(i);
        let u = c as u32;
        if !((48 <= u && u <= 57) || (97 <= u && u <= 122) || (65 <= u && u <= 90) || c == '+' || c
            == '-' || c == '.') {
            return false;
        }
        i = i + 1;
    }
    true
}

/// Validates an absolute http(s) URL with a host, reporting the first
/// reason it is not one.
pub fn uri_absolute(value: &NonEmptyString) -> (r: Result<(), String>)
    ensures
        uri_absolute_spec(value@) matches Some(m) ==> (r matches Err(e) && e@ == m),
        uri_absolute_spec(value@) is None ==> r matches Ok(()),
{
    let s = value.as_str();
    let len = s.unicode_len();
    let c = find_char(s, ':');
    if c == len {
        return Err("is not a valid URL".to_owned());
    }
    let scheme = s.substring_char(0, c);
    if !check_scheme(scheme) {
        return Err("is not a valid URL".to_owned());
    }
    if !(str_eq(scheme, "http") || str_eq(scheme, "https")) {
        return Err("scheme must be http or https".to_owned());
    }
    if len - c < 3 {
        return Err("is incomplete".to_owned());
    }
    if !(s.get_char(c + 1) == '/' && s.get_char(c + 2) == '/') {
        return Err("is incomplete".to_owned());
    }
    let after = s.substring_char(c + 3, len);
    let ae = find_authority_end(after);
    let a = after.substring_char(0, ae);
    let a_len = a.unicode_len();
    let u = find_char(a, '@');
    let rest = if u == a_len {
        a
    } else {
        a.substring_char(u + 1, a_len)
    };
    let c2 = find_char(rest, ':');
    let host = rest.substring_char(0, c2);
    if host.unicode_len() == 0 {
        Err("host is missing".to_owned())
    } else {
        Ok(())
    }
}

} // verus!
