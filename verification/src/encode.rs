//! Form-urlencoding of query values: the UTF-8 bytes of the value with
//! alphanumerics and `*-._` kept, space written `+`, and every other byte
//! written `%XX` with uppercase hex digits.

use vstd::prelude::*;
use vstd::string::*;

use crate::text::push_char;

verus! {

/// Bytes that stay themselves in a form-encoded value.
pub open spec fn is_unreserved(b: u8) -> bool {
    ||| 48 <= b <= 57
    ||| 65 <= b <= 90
    ||| 97 <= b <= 122
    ||| b == 42
    ||| b == 45
    ||| b == 46
    ||| b == 95
}

/// Uppercase hex digit for a value below sixteen.
pub open spec fn hex_digit(d: u8) -> char
    recommends
        d < 16,
{
    if d < 10 {
        ((d + 48) as u8) as char
    } else {
        ((d + 55) as u8) as char
    }
}

/// The characters one byte encodes to.
pub open spec fn enc_byte(b: u8) -> Seq<char> {
    if is_unreserved(b) {
        seq![b as char]
    } else if b == 32 {
        seq!['+']
    } else {
        seq!['%', hex_digit(b / 16), hex_digit(b % 16)]
    }
}

/// The encoding of a byte sequence, byte by byte.
pub open spec fn form_encoded_bytes(s: Seq<u8>) -> Seq<char>
    decreases s.len(),
{
    if s.len() == 0 {
        Seq::empty()
    } else {
        enc_byte(s[0]) + form_encoded_bytes(s.drop_first())
    }
}

/// The encoding of a string: its UTF-8 bytes, encoded.
pub open spec fn url_encoded(s: Seq<char>) -> Seq<char> {
    form_encoded_bytes(vstd::utf8::encode_utf8(s))
}

proof fn lemma_enc_push(s: Seq<u8>, b: u8)
    ensures
        form_encoded_bytes(s.push(b)) =~= form_encoded_bytes(s) + enc_byte(b),
    decreases s.len(),
{
    if s.len() == 0 {
        assert(s.push(b)[0] == b);
        assert(s.push(b).drop_first() =~= Seq::<u8>::empty());
        assert(form_encoded_bytes(Seq::<u8>::empty()) =~= Seq::<char>::empty());
        assert(form_encoded_bytes(s) =~= Seq::<char>::empty());
    } else {
        assert(s.push(b)[0] == s[0]);
        assert(s.push(b).drop_first() =~= s.drop_first().push(b));
        lemma_enc_push(s.drop_first(), b);
        assert(form_encoded_bytes(s.push(b)) == enc_byte(s[0]) + form_encoded_bytes(
            s.drop_first().push(b),
        ));
        assert(form_encoded_bytes(s) == enc_byte(s[0]) + form_encoded_bytes(s.drop_first()));
    }
}

/// What one character contributes to a JSON string literal: quotes and
/// backslashes are escaped, common control characters use their short
/// escapes, other control characters a `\u00XX` escape, everything else
/// stands as itself.
pub open spec fn json_escaped_char(c: char) -> Seq<char> {
    if c == '"' {
        seq!['\\', '"']
    } else if c == '\\' {
        seq!['\\', '\\']
    } else if c == '\n' {
        seq!['\\', 'n']
    } else if c == '\r' {
        seq!['\\', 'r']
    } else if c == '\t' {
        seq!['\\', 't']
    } else if (c as u32) < 32 {
        let hi = hex_digit((c as u32 / 16) as u8);
        let lo = hex_digit((c as u32 % 16) as u8);
        seq!['\\', 'u', '0', '0', hi, lo]
    } else {
        seq![c]
    }
}

/// The body of a JSON string literal for this text.
pub open spec fn json_escaped(s: Seq<char>) -> Seq<char>
    decreases s.len(),
{
    if s.len() == 0 {
        Seq::empty()
    } else {
        json_escaped_char(s[0]) + json_escaped(s.drop_first())
    }
}

/// A JSON string literal for this text.
pub open spec fn json_string(s: Seq<char>) -> Seq<char> {
    seq!['"'] + json_escaped(s) + seq!['"']
}

proof fn lemma_json_escaped_push(s: Seq<char>, c: char)
    ensures
        json_escaped(s.push(c)) =~= json_escaped(s) + json_escaped_char(c),
    decreases s.len(),
{
    if s.len() == 0 {
        assert(s.push(c)[0] == c);
        assert(s.push(c).drop_first() =~= Seq::<char>::empty());
        assert(json_escaped(Seq::<char>::empty()) =~= Seq::<char>::empty());
        assert(json_escaped(s) =~= Seq::<char>::empty());
    } else {
        assert(s.push(c)[0] == s[0]);
        assert(s.push(c).drop_first() =~= s.drop_first().push(c));
        lemma_json_escaped_push(s.drop_first(), c);
        assert(json_escaped(s.push(c)) == json_escaped_char(s[0]) + json_escaped(
            s.drop_first().push(c),
        ));
        assert(json_escaped(s) == json_escaped_char(s[0]) + json_escaped(s.drop_first()));
    }
}

/// Appends a JSON string literal for the text to the output.
pub fn append_json_string(out: &mut String, s: &str)
    ensures
        final(out)@ == old(out)@ + json_string(s@),
{
    let ghost start = out@;
    push_char(out, '"');
    let len = s.unicode_len();
    let mut i: usize = 0;
    while i < len
        invariant
            0 <= i <= len,
            len == s@.len(),
            out@ == start + seq!['"'] + json_escaped(s@.take(i as int)),
        decreases len - i,
    {
        let c = s.get_char(i);
        let u = c as u32;
        if c == '"' {
            push_char(out, '\\');
            push_char(out, '"');
        } else if c == '\\' {
            push_char(out, '\\');
            push_char(out, '\\');
        } else if c == '\n' {
            push_char(out, '\\');
            push_char(out, 'n');
        } else if c == '\r' {
            push_char(out, '\\');
            push_char(out, 'r');
        } else if c == '\t' {
            push_char(out, '\\');
            push_char(out, 't');
        } else if u < 32 {
            push_char(out, '\\');
            push_char(out, 'u');
            push_char(out, '0');
            push_char(out, '0');
            let hi = (u / 16) as u8;
            let lo = (u % 16) as u8;
            if hi < 10 {
                push_char(out, (hi + 48) as char);
            } else {
                push_char(out, (hi + 55) as char);
            }
            if lo < 10 {
                push_char(out, (lo + 48) as char);
            } else {
                push_char(out, (lo + 55) as char);
            }
        } else {
            push_char(out, c);
        }
        proof {
            lemma_json_escaped_push(s@.take(i as int), c);
            assert(s@.take(i as int).push(c) =~= s@.take(i as int + 1));
            assert(out@ =~= start + seq!['"'] + json_escaped(s@.take(i as int + 1)));
        }
        i = i + 1;
    }
    push_char(out, '"');
    proof {
        assert(s@.take(len as int) =~= s@);
        assert(out@ =~= start + json_string(s@));
    }
}

/// Form-urlencodes a value for use in a query string.
pub fn urlencode(s: &str) -> (r: String)
    ensures
        r@ == url_encoded(s@),
{
    let bytes = s.as_bytes();
    let ghost bs = bytes@;
    let mut r = String::new();
    let mut i: usize = 0;
    while i < bytes.len()
        invariant
            0 <= i <= bs.len(),
            bytes@ == bs,
            r@ == form_encoded_bytes(bs.take(i as int)),
        decreases bs.len() - i,
    {
        let b = bytes[i];
        if (48 <= b && b <= 57) || (65 <= b && b <= 90) || (97 <= b && b <= 122) || b == 42 || b
            == 45 || b == 46 || b == 95 {
            push_char(&mut r, b as char);
        } else if b == 32 {
            push_char(&mut r, '+');
        } else {
            push_char(&mut r, '%');
            let hi = b / 16;
            let lo = b % 16;
            if hi < 10 {
                push_char(&mut r, (hi + 48) as char);
            } else {
                push_char(&mut r, (hi + 55) as char);
            }
            if lo < 10 {
                push_char(&mut r, (lo + 48) as char);
            } else {
                push_char(&mut r, (lo + 55) as char);
            }
        }
        proof {
            lemma_enc_push(bs.take(i as int), b);
            assert(bs.take(i as int).push(b) =~= bs.take(i as int + 1));
            assert(r@ =~= form_encoded_bytes(bs.take(i as int)) + enc_byte(b));
        }
        i = i + 1;
    }
    proof {
        assert(bs.take(bs.len() as int) =~= bs);
    }
    r
}

} // verus!
