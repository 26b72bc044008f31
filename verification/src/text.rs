//! String helpers shared by the library: equality, character appends,
//! decimal encoding and parsing of integers, and joining with a separator.

use vstd::prelude::*;
use vstd::string::*;

verus! {

/// True iff the two strings hold the same characters.
pub fn str_eq(a: &str, b: &str) -> (r: bool)
    ensures
        r == (a@ == b@),
{
    let sa: String = a.to_owned();
    let sb: String = b.to_owned();
    sa == sb
}

/// Relies on std's `String::push`: appends exactly the given character.
#[verifier::external_body]
pub fn push_char(s: &mut String, c: char)
    ensures
        final(s)@ == old(s)@.push(c),
{
    s.push(c);
}

/// The character for one decimal digit.
pub open spec fn dec_digit(d: nat) -> char
    recommends
        d < 10,
{
    ((d + 48) as u8) as char
}

/// The canonical decimal digits of a natural number, most significant first.
pub open spec fn dec_spec(n: nat) -> Seq<char>
    decreases n,
{
    if n < 10 {
        seq![dec_digit(n)]
    } else {
        dec_spec(n / 10).push(dec_digit(n % 10))
    }
}

/// Writes a number as its canonical decimal digits.
pub fn u64_to_string(n: u64) -> (r: String)
    ensures
        r@ == dec_spec(n as nat),
    decreases n,
{
    if n < 10 {
        let mut s = String::new();
        push_char(&mut s, (n as u8 + 48) as char);
        assert(s@ =~= dec_spec(n as nat));
        s
    } else {
        let mut s = u64_to_string(n / 10);
        push_char(&mut s, ((n % 10) as u8 + 48) as char);
        assert(s@ =~= dec_spec(n as nat));
        s
    }
}

pub open spec fn is_digit(c: char) -> bool {
    48 <= c as u32 <= 57
}

pub open spec fn digit_val(c: char) -> nat
    recommends
        is_digit(c),
{
    (c as u32 - 48) as nat
}

/// Value of a digit string, read left to right.
pub open spec fn dec_val(s: Seq<char>) -> nat
    decreases s.len(),
{
    if s.len() == 0 {
        0
    } else {
        dec_val(s.drop_last()) * 10 + digit_val(s.last())
    }
}

pub open spec fn all_digits(s: Seq<char>) -> bool {
    forall|i: int| 0 <= i < s.len() ==> is_digit(#[trigger] s[i])
}

/// A string is the canonical decimal form of some `u64`: non-empty, digits
/// only, no redundant leading zero, and within range.
pub open spec fn is_canonical_dec(s: Seq<char>) -> bool {
    &&& s.len() > 0
    &&& all_digits(s)
    &&& (s.len() == 1 || s[0] != dec_digit(0))
    &&& dec_val(s) <= u64::MAX
}

/// What parsing a decimal string yields: the value on canonical input,
/// nothing otherwise.
pub open spec fn parse_dec_spec(s: Seq<char>) -> Option<u64> {
    if is_canonical_dec(s) {
        Some(dec_val(s) as u64)
    } else {
        None
    }
}

proof fn lemma_dec_val_step(s: Seq<char>, i: int)
    requires
        0 <= i < s.len(),
    ensures
        dec_val(s.take(i + 1)) == dec_val(s.take(i)) * 10 + digit_val(s[i]),
{
    assert(s.take(i + 1).drop_last() =~= s.take(i));
    assert(s.take(i + 1).last() == s[i]);
}

pub(crate) proof fn lemma_dec_val_prefix_le(s: Seq<char>, i: int)
    requires
        0 <= i <= s.len(),
    ensures
        dec_val(s.take(i)) <= dec_val(s),
    decreases s.len() - i,
{
    if i < s.len() {
        lemma_dec_val_step(s, i);
        assert(dec_val(s.take(i)) <= dec_val(s.take(i)) * 10 + digit_val(s[i]))
            by (nonlinear_arith);
        lemma_dec_val_prefix_le(s, i + 1);
    } else {
        assert(s.take(i) =~= s);
    }
}

/// Parses a canonical decimal string; anything else yields `None`.
pub fn parse_decimal(s: &str) -> (r: Option<u64>)
    ensures
        r == parse_dec_spec(s@),
{
    let len = s.unicode_len();
    if len == 0 {
        return None;
    }
    if len > 1 && s.get_char(0) as u32 == 48 {
        assert(!is_canonical_dec(s@));
        return None;
    }
    let mut acc: u64 = 0;
    let mut i: usize = 0;
    while i < len
        invariant
            0 <= i <= len,
            len == s@.len(),
            len > 1 ==> s@[0] as u32 != 48,
            all_digits(s@.take(i as int)),
            acc == dec_val(s@.take(i as int)),
        decreases len - i,
    {
        let c = s.get_char(i);
        let u = c as u32;
        if u < 48 || u > 57 {
            assert(!all_digits(s@)) by {
                assert(s@[i as int] == c);
            }
            return None;
        }
        let d = (u - 48) as u64;
        proof {
            lemma_dec_val_step(s@, i as int);
        }
        if acc > (u64::MAX - d) / 10 {
            proof {
                assert(dec_val(s@.take(i as int + 1)) == acc * 10 + d);
                assert(acc * 10 + d > u64::MAX) by (nonlinear_arith)
                    requires
                        acc > (u64::MAX - d) / 10,
                        d <= 9,
                ;
                lemma_dec_val_prefix_le(s@, i as int + 1);
                assert(!is_canonical_dec(s@));
            }
            return None;
        }
        acc = acc * 10 + d;
        i = i + 1;
        proof {
            assert(all_digits(s@.take(i as int))) by {
                assert(forall|j: int|
                    0 <= j < i ==> s@.take(i as int)[j] == #[trigger] s@.take(i as int - 1).push(
                        c,
                    )[j]);
                assert(s@.take(i as int) =~= s@.take(i as int - 1).push(c));
            }
        }
    }
    proof {
        assert(s@.take(len as int) =~= s@);
        assert(is_canonical_dec(s@)) by {
            if len > 1 {
                assert(s@[0] != dec_digit(0));
            }
        }
    }
    Some(acc)
}

/// The canonical decimal digits of a number parse back to that number.
pub proof fn lemma_dec_roundtrip(n: u64)
    ensures
        is_canonical_dec(dec_spec(n as nat)),
        dec_val(dec_spec(n as nat)) == n,
        parse_dec_spec(dec_spec(n as nat)) == Some(n),
    decreases n,
{
    lemma_dec_spec_shape(n as nat);
    assert(dec_val(dec_spec(n as nat)) == n) by {
        lemma_dec_val_of_dec_spec(n as nat);
    }
}

/// Digits of `dec_spec` are digits, and the first is nonzero unless the
/// number itself is below ten.
proof fn lemma_dec_spec_shape(n: nat)
    ensures
        dec_spec(n).len() > 0,
        all_digits(dec_spec(n)),
        dec_spec(n).len() == 1 || dec_spec(n)[0] != dec_digit(0),
        n >= 1 ==> dec_spec(n)[0] != dec_digit(0),
    decreases n,
{
    if n < 10 {
        assert(is_digit(dec_digit(n)));
        if n >= 1 {
            assert(dec_digit(n) as u32 != 48);
        }
    } else {
        lemma_dec_spec_shape(n / 10);
        let s = dec_spec(n / 10);
        let w = s.push(dec_digit(n % 10));
        assert(n % 10 < 10);
        assert(is_digit(dec_digit(n % 10)));
        assert(all_digits(w)) by {
            assert(forall|i: int| 0 <= i < s.len() ==> w[i] == #[trigger] s[i]);
        }
        assert(n / 10 >= 1);
        assert(w[0] == s[0]);
    }
}

proof fn lemma_dec_val_of_dec_spec(n: nat)
    ensures
        dec_val(dec_spec(n)) == n,
    decreases n,
{
    if n < 10 {
        let s = seq![dec_digit(n)];
        assert(s.drop_last() =~= Seq::<char>::empty());
        assert(s.last() == dec_digit(n));
        assert(dec_val(s.drop_last()) == 0);
        assert(digit_val(dec_digit(n)) == n);
        assert(dec_val(s) == 0 * 10 + n);
    } else {
        lemma_dec_val_of_dec_spec(n / 10);
        let s = dec_spec(n / 10);
        let w = s.push(dec_digit(n % 10));
        assert(w.drop_last() =~= s);
        assert(digit_val(dec_digit(n % 10)) == n % 10);
        assert(dec_val(w) == dec_val(s) * 10 + n % 10);
        assert((n / 10) * 10 + n % 10 == n) by {
            vstd::arithmetic::div_mod::lemma_fundamental_div_mod(n as int, 10);
        }
    }
}

/// Index of the first occurrence of the character, or the length when it
/// does not occur.
pub open spec fn first_index(s: Seq<char>, c: char) -> int
    decreases s.len(),
{
    if s.len() == 0 {
        0
    } else if s[0] == c {
        0
    } else {
        1 + first_index(s.drop_first(), c)
    }
}

pub proof fn lemma_first_index_char(s: Seq<char>, c: char)
    ensures
        0 <= first_index(s, c) <= s.len(),
        first_index(s, c) < s.len() ==> s[first_index(s, c)] == c,
        forall|j: int| 0 <= j < first_index(s, c) ==> s[j] != c,
    decreases s.len(),
{
    if s.len() == 0 {
    } else if s[0] == c {
    } else {
        lemma_first_index_char(s.drop_first(), c);
        assert forall|j: int| 0 <= j < first_index(s, c) implies s[j] != c by {
            if j > 0 {
                assert(s.drop_first()[j - 1] == s[j]);
                assert(j - 1 < first_index(s.drop_first(), c));
            }
        }
    }
}

pub proof fn lemma_first_index_unique(s: Seq<char>, c: char, i: int)
    requires
        0 <= i <= s.len(),
        i < s.len() ==> s[i] == c,
        i == s.len() ==> (forall|j: int| 0 <= j < s.len() ==> s[j] != c),
        forall|j: int| 0 <= j < i ==> s[j] != c,
    ensures
        first_index(s, c) == i,
{
    lemma_first_index_char(s, c);
    let fd = first_index(s, c);
    if fd < i {
        assert(s[fd] != c);
    } else if i < fd {
        assert(s[i] != c);
    }
}

/// Finds the first occurrence of the character, returning its index or the
/// length.
pub fn find_char(s: &str, c: char) -> (r: usize)
    ensures
        r == first_index(s@, c),
        r <= s@.len(),
{
    let len = s.unicode_len();
    let mut i: usize = 0;
    while i < len
        invariant
            0 <= i <= len,
            len == s@.len(),
            forall|j: int| 0 <= j < i ==> s@[j] != c,
        decreases len - i,
    {
        let x = s.get_char(i);
        if x == c {
            proof {
                lemma_first_index_unique(s@, c, i as int);
            }
            return i;
        }
        i = i + 1;
    }
    proof {
        lemma_first_index_unique(s@, c, len as int);
    }
    len
}

/// The parts joined with the separator between consecutive parts.
pub open spec fn join_spec(parts: Seq<Seq<char>>, sep: Seq<char>) -> Seq<char>
    decreases parts.len(),
{
    if parts.len() == 0 {
        Seq::empty()
    } else if parts.len() == 1 {
        parts[0]
    } else {
        parts[0] + sep + join_spec(parts.drop_first(), sep)
    }
}

proof fn lemma_join_push(parts: Seq<Seq<char>>, sep: Seq<char>, p: Seq<char>)
    ensures
        parts.len() == 0 ==> join_spec(parts.push(p), sep) == p,
        parts.len() > 0 ==> join_spec(parts.push(p), sep) =~= join_spec(parts, sep) + sep + p,
    decreases parts.len(),
{
    if parts.len() == 0 {
        assert(parts.push(p)[0] == p);
    } else if parts.len() == 1 {
        let w = parts.push(p);
        assert(w.len() == 2);
        assert(w[0] == parts[0]);
        assert(w.drop_first() =~= seq![p]);
        assert(seq![p][0] == p);
        assert(join_spec(seq![p], sep) == p);
        assert(join_spec(w, sep) == w[0] + sep + join_spec(w.drop_first(), sep));
        assert(join_spec(w, sep) == parts[0] + sep + p);
    } else {
        let w = parts.push(p);
        assert(w.drop_first() =~= parts.drop_first().push(p));
        lemma_join_push(parts.drop_first(), sep, p);
        assert(join_spec(w, sep) == w[0] + sep + join_spec(parts.drop_first().push(p), sep));
        assert(w[0] == parts[0]);
        assert(join_spec(w, sep) =~= join_spec(parts, sep) + sep + p);
    }
}

/// Joins the parts with the separator between consecutive parts.
pub fn join_strings(parts: &Vec<String>, sep: &str) -> (r: String)
    ensures
        r@ == join_spec(parts@.map_values(|p: String| p@), sep@),
{
    let ghost views = parts@.map_values(|p: String| p@);
    let mut r = String::new();
    let mut i: usize = 0;
    while i < parts.len()
        invariant
            0 <= i <= parts@.len(),
            views == parts@.map_values(|p: String| p@),
            views.len() == parts@.len(),
            r@ == join_spec(views.take(i as int), sep@),
        decreases parts@.len() - i,
    {
        if i > 0 {
            r.append(sep);
        }
        r.append(parts[i].as_str());
        proof {
            assert(views.take(i as int).push(views[i as int]) =~= views.take(i as int + 1));
            lemma_join_push(views.take(i as int), sep@, views[i as int]);
            assert(views[i as int] == parts@[i as int]@);
        }
        i = i + 1;
    }
    proof {
        assert(views.take(parts@.len() as int) =~= views);
    }
    r
}

} // verus!
