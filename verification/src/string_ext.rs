//! Display helpers for identifiers: turning `field_name.with.parts` into
//! words.

use vstd::prelude::*;
use vstd::string::*;

use crate::text::push_char;

verus! {

/// One character of the humanised form: separator punctuation becomes a
/// space.
pub open spec fn humanise_char(c: char) -> char {
    if c == '_' || c == '.' {
        ' '
    } else {
        c
    }
}

/// The humanised form of a name: underscores and dots become spaces.
pub open spec fn humanise_spec(s: Seq<char>) -> Seq<char> {
    s.map_values(|c: char| humanise_char(c))
}

/// Human-friendly rendering of identifier-like strings.
pub trait StringExt where Self: View<V = Seq<char>> {
    /// Replaces underscores and dots with spaces.
    fn humanise(&self) -> (r: String)
        ensures
            r@ == humanise_spec(self@),
    ;
}

impl StringExt for str {
    fn humanise(&self) -> (r: String) {
        let len = self.unicode_len();
        let mut r = String::new();
        let mut i: usize = 0;
        while i < len
            invariant
                0 <= i <= len,
                len == self@.len(),
                r@ == humanise_spec(self@.take(i as int)),
            decreases len - i,
        {
            let c = self.get_char(i);
            if c == '_' || c == '.' {
                push_char(&mut r, ' ');
            } else {
                push_char(&mut r, c);
            }
            proof {
                assert(r@ =~= humanise_spec(self@.take(i as int + 1)));
            }
            i = i + 1;
        }
        proof {
            assert(self@.take(len as int) =~= self@);
        }
        r
    }
}

} // verus!
