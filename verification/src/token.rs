//! The session store: issues an opaque, tamper-evident token that carries a
//! user id and an expiry one week from issuance, and validates such tokens.
//! Validity is solely a function of the token text, the key and the clock;
//! no server-side session record exists.

use vstd::prelude::*;
use vstd::string::*;

use crate::models::UserId;
use crate::text::{
    dec_spec, find_char, first_index, lemma_dec_roundtrip, lemma_first_index_unique,
    parse_dec_spec, parse_decimal, push_char, u64_to_string,
};

verus! {

/// A session lives one week from issuance.
pub const SESSION_LIFETIME_SECONDS: i64 = 604800;

/// The keyed tag a token carries; a token whose tag does not match its
/// contents under the key is rejected. The tag models the transport's
/// tamper evidence: it is a fixed 64-bit keyed mix, not a cryptographic
/// authentication code.
pub open spec fn tag_spec(key: u64, uid: u64, exp: u64) -> u64 {
    (uid ^ key).wrapping_mul(0x9E3779B97F4A7C15) ^ (exp ^ key).wrapping_mul(0xC2B2AE3D27D4EB4F)
}

/// Computes the keyed tag for a token's contents.
pub fn session_tag(key: u64, uid: u64, exp: u64) -> (r: u64)
    ensures
        r == tag_spec(key, uid, exp),
{
    (uid ^ key).wrapping_mul(0x9E3779B97F4A7C15) ^ (exp ^ key).wrapping_mul(0xC2B2AE3D27D4EB4F)
}

/// The text of a token: user id, expiry and tag in decimal, separated by
/// dots.
pub open spec fn token_chars(uid: u64, exp: u64, tag: u64) -> Seq<char> {
    dec_spec(uid as nat) + seq!['.'] + dec_spec(exp as nat) + seq!['.'] + dec_spec(tag as nat)
}

/// What a token's text decomposes to: the three decimal fields, when the
/// text is exactly two dot-separated canonical numbers around a third.
pub open spec fn parse_token_spec(t: Seq<char>) -> Option<(u64, u64, u64)> {
    let d1 = first_index(t, '.');
    if d1 == t.len() {
        None
    } else {
        let rest = t.subrange(d1 + 1, t.len() as int);
        let d2 = first_index(rest, '.');
        if d2 == rest.len() {
            None
        } else {
            let p1 = t.subrange(0, d1);
            let p2 = rest.subrange(0, d2);
            let p3 = rest.subrange(d2 + 1, rest.len() as int);
            match (parse_dec_spec(p1), parse_dec_spec(p2), parse_dec_spec(p3)) {
                (Some(u), Some(e), Some(g)) => Some((u, e, g)),
                _ => None,
            }
        }
    }
}

/// What validation yields: the user id exactly when the token decomposes,
/// its tag matches its contents under the key, the id fits its type, and
/// the expiry lies in the future.
pub open spec fn validate_spec(t: Seq<char>, key: u64, now: i64) -> Option<u64> {
    match parse_token_spec(t) {
        Some((uid, exp, tag)) => {
            if tag == tag_spec(key, uid, exp) && uid <= i64::MAX && (now as int) < (exp as int) {
                Some(uid)
            } else {
                None
            }
        },
        None => None,
    }
}

/// Issues a session token for the user: expiry one week from now, sealed
/// with the keyed tag.
pub fn issue(user_id: UserId, key: u64, now: i64) -> (r: String)
    requires
        0 <= user_id.0,
        0 <= now,
        now + SESSION_LIFETIME_SECONDS <= i64::MAX,
    ensures
        r@ == token_chars(
            user_id.0 as u64,
            (now + SESSION_LIFETIME_SECONDS) as u64,
            tag_spec(key, user_id.0 as u64, (now + SESSION_LIFETIME_SECONDS) as u64),
        ),
{
    let uid = user_id.0 as u64;
    let exp = (now + SESSION_LIFETIME_SECONDS) as u64;
    let tag = session_tag(key, uid, exp);
    let mut t = u64_to_string(uid);
    push_char(&mut t, '.');
    let t2 = u64_to_string(exp);
    let t = t.concat(t2.as_str());
    let mut t = t;
    push_char(&mut t, '.');
    let t3 = u64_to_string(tag);
    let r = t.concat(t3.as_str());
    proof {
        assert(r@ =~= token_chars(uid, exp, tag));
    }
    r
}

/// Validates a session token: returns the user id it names exactly when the
/// token is intact and not expired.
pub fn validate(token: &str, key: u64, now: i64) -> (r: Option<UserId>)
    ensures
        r matches Some(u) ==> validate_spec(token@, key, now) == Some(u.0 as u64) && u.0 >= 0,
        r is None ==> validate_spec(token@, key, now) is None,
{
    let len = token.unicode_len();
    let d1 = find_char(token, '.');
    if d1 == len {
        return None;
    }
    let rest = token.substring_char(d1 + 1, len);
    let rest_len = rest.unicode_len();
    let d2 = find_char(rest, '.');
    if d2 == rest_len {
        return None;
    }
    let p1 = token.substring_char(0, d1);
    let p2 = rest.substring_char(0, d2);
    let p3 = rest.substring_char(d2 + 1, rest_len);
    let uid = match parse_decimal(p1) {
        Some(u) => u,
        None => {
            return None;
        },
    };
    let exp = match parse_decimal(p2) {
        Some(e) => e,
        None => {
            return None;
        },
    };
    let tag = match parse_decimal(p3) {
        Some(g) => g,
        None => {
            return None;
        },
    };
    if tag != session_tag(key, uid, exp) {
        return None;
    }
    if uid > i64::MAX as u64 {
        return None;
    }
    if now >= 0 && (now as u64) >= exp {
        return None;
    }
    Some(UserId(uid as i64))
}

/// The decimal pieces of a well-formed token parse back to exactly the
/// values it was built from.
proof fn lemma_token_roundtrip(uid: u64, exp: u64, tag: u64)
    ensures
        parse_token_spec(token_chars(uid, exp, tag)) == Some((uid, exp, tag)),
{
    let du = dec_spec(uid as nat);
    let de = dec_spec(exp as nat);
    let dg = dec_spec(tag as nat);
    lemma_dec_roundtrip(uid);
    lemma_dec_roundtrip(exp);
    lemma_dec_roundtrip(tag);
    let t = token_chars(uid, exp, tag);
    assert(t.len() == du.len() + 1 + de.len() + 1 + dg.len());
    assert forall|j: int| 0 <= j < du.len() implies t[j] != '.' by {
        assert(t[j] == du[j]);
        assert(crate::text::is_digit(du[j]));
        assert(du[j] as u32 != 46);
        assert('.' as u32 == 46);
    }
    assert(t[du.len() as int] == '.');
    lemma_first_index_unique(t, '.', du.len() as int);
    let rest = t.subrange(du.len() as int + 1, t.len() as int);
    assert(rest =~= de + seq!['.'] + dg);
    assert forall|j: int| 0 <= j < de.len() implies rest[j] != '.' by {
        assert(rest[j] == de[j]);
        assert(crate::text::is_digit(de[j]));
        assert(de[j] as u32 != 46);
        assert('.' as u32 == 46);
    }
    assert(rest[de.len() as int] == '.');
    lemma_first_index_unique(rest, '.', de.len() as int);
    assert(t.subrange(0, du.len() as int) =~= du);
    assert(rest.subrange(0, de.len() as int) =~= de);
    assert(rest.subrange(de.len() as int + 1, rest.len() as int) =~= dg);
}

/// A token issued for a user validates to exactly that user while its
/// lifetime lasts, and validation fails once the lifetime has elapsed.
pub proof fn lemma_validate_issue(user_id: UserId, key: u64, now: i64, later: i64)
    requires
        0 <= user_id.0,
        0 <= now,
        now + SESSION_LIFETIME_SECONDS <= i64::MAX,
    ensures
        ({
            let exp = (now + SESSION_LIFETIME_SECONDS) as u64;
            let t = token_chars(user_id.0 as u64, exp, tag_spec(key, user_id.0 as u64, exp));
            validate_spec(t, key, later) == if (later as int) < (exp as int) {
                Some(user_id.0 as u64)
            } else {
                None::<u64>
            }
        }),
{
    let uid = user_id.0 as u64;
    let exp = (now + SESSION_LIFETIME_SECONDS) as u64;
    lemma_token_roundtrip(uid, exp, tag_spec(key, uid, exp));
}

} // verus!
