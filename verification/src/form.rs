//! Form input handling: a trimmed, non-empty string type for required
//! fields, and a form context carrying submitted values and per-field
//! errors.

use vstd::prelude::*;
use vstd::string::*;

use crate::string_ext::{humanise_spec, StringExt};
use crate::text::{join_spec, join_strings, str_eq};

pub mod validate;

verus! {

/// ASCII whitespace, as trimmed from form values.
pub open spec fn is_space(c: char) -> bool {
    c == ' ' || c == '\t' || c == '\n' || c == '\r' || c == '\u{c}'
}

/// Index of the first non-space character, or the length.
pub open spec fn trim_start_idx(s: Seq<char>) -> int
    decreases s.len(),
{
    if s.len() == 0 {
        0
    } else if is_space(s[0]) {
        1 + trim_start_idx(s.drop_first())
    } else {
        0
    }
}

/// One past the last non-space character, or zero.
pub open spec fn trim_end_idx(s: Seq<char>) -> int
    decreases s.len(),
{
    if s.len() == 0 {
        0
    } else if is_space(s.last()) {
        trim_end_idx(s.drop_last())
    } else {
        s.len() as int
    }
}

/// The string without leading and trailing whitespace.
pub open spec fn trim_spec(s: Seq<char>) -> Seq<char> {
    if trim_start_idx(s) <= trim_end_idx(s) {
        s.subrange(trim_start_idx(s), trim_end_idx(s))
    } else {
        Seq::empty()
    }
}

proof fn lemma_trim_start_char(s: Seq<char>)
    ensures
        0 <= trim_start_idx(s) <= s.len(),
        forall|j: int| 0 <= j < trim_start_idx(s) ==> is_space(#[trigger] s[j]),
        trim_start_idx(s) < s.len() ==> !is_space(s[trim_start_idx(s)]),
    decreases s.len(),
{
    if s.len() == 0 {
    } else if is_space(s[0]) {
        lemma_trim_start_char(s.drop_first());
        assert forall|j: int| 0 <= j < trim_start_idx(s) implies is_space(#[trigger] s[j]) by {
            if j > 0 {
                assert(s.drop_first()[j - 1] == s[j]);
                assert(j - 1 < trim_start_idx(s.drop_first()));
            }
        }
        if trim_start_idx(s) < s.len() {
            assert(s.drop_first()[trim_start_idx(s) - 1] == s[trim_start_idx(s)]);
        }
    } else {
    }
}

proof fn lemma_trim_start_unique(s: Seq<char>, i: int)
    requires
        0 <= i <= s.len(),
        forall|j: int| 0 <= j < i ==> is_space(#[trigger] s[j]),
        i < s.len() ==> !is_space(s[i]),
    ensures
        trim_start_idx(s) == i,
{
    lemma_trim_start_char(s);
    let t = trim_start_idx(s);
    if t < i {
        assert(is_space(s[t]));
    } else if i < t {
        assert(is_space(s[i]));
    }
}

proof fn lemma_trim_end_char(s: Seq<char>)
    ensures
        0 <= trim_end_idx(s) <= s.len(),
        forall|j: int| trim_end_idx(s) <= j < s.len() ==> is_space(#[trigger] s[j]),
        trim_end_idx(s) > 0 ==> !is_space(s[trim_end_idx(s) - 1]),
    decreases s.len(),
{
    if s.len() == 0 {
    } else if is_space(s.last()) {
        lemma_trim_end_char(s.drop_last());
        assert forall|j: int| trim_end_idx(s) <= j < s.len() implies is_space(#[trigger] s[j]) by {
            if j < s.len() - 1 {
                assert(s.drop_last()[j] == s[j]);
            }
        }
        if trim_end_idx(s) > 0 {
            assert(s.drop_last()[trim_end_idx(s) - 1] == s[trim_end_idx(s) - 1]);
        }
    } else {
    }
}

proof fn lemma_trim_end_unique(s: Seq<char>, i: int)
    requires
        0 <= i <= s.len(),
        forall|j: int| i <= j < s.len() ==> is_space(#[trigger] s[j]),
        i > 0 ==> !is_space(s[i - 1]),
    ensures
        trim_end_idx(s) == i,
{
    lemma_trim_end_char(s);
    let t = trim_end_idx(s);
    if t < i {
        assert(is_space(s[i - 1]));
    } else if i < t {
        assert(is_space(s[t - 1]));
    }
}

/// Whether the character is trimmed whitespace.
fn is_space_char(c: char) -> (r: bool)
    ensures
        r == is_space(c),
{
    c == ' ' || c == '\t' || c == '\n' || c == '\r' || c == '\u{c}'
}

/// The string without leading and trailing whitespace.
pub fn trim(s: &str) -> (r: &str)
    ensures
        r@ == trim_spec(s@),
{
    let len = s.unicode_len();
    let mut a: usize = 0;
    while a < len && is_space_char(s.get_char(a))
        invariant
            0 <= a <= len,
            len == s@.len(),
            forall|j: int| 0 <= j < a ==> is_space(#[trigger] s@[j]),
        decreases len - a,
    {
        a = a + 1;
    }
    proof {
        lemma_trim_start_unique(s@, a as int);
    }
    if a == len {
        proof {
            lemma_trim_end_char(s@);
            if trim_start_idx(s@) <= trim_end_idx(s@) {
                assert(trim_end_idx(s@) == len);
                assert(trim_spec(s@) =~= Seq::<char>::empty());
            }
        }
        return s.substring_char(len, len);
    }
    let mut b: usize = len;
    while b > a && is_space_char(s.get_char(b - 1))
        invariant
            a <= b <= len,
            len == s@.len(),
            forall|j: int| b <= j < len ==> is_space(#[trigger] s@[j]),
        decreases b,
    {
        b = b - 1;
    }
    proof {
        if b == a {
            assert(is_space(s@[a as int]));
            assert(false);
        }
        assert(!is_space(s@[b - 1]));
        lemma_trim_end_unique(s@, b as int);
    }
    s.substring_char(a, b)
}

/// A required form value: what the user submitted, trimmed, and known to be
/// non-empty.
pub struct NonEmptyString<'a>(&'a str);

impl<'a> View for NonEmptyString<'a> {
    type V = Seq<char>;

    closed spec fn view(&self) -> Seq<char> {
        self.0@
    }
}

impl<'a> NonEmptyString<'a> {
    /// Accepts a form value whose trimmed text is non-empty; a blank value
    /// is rejected with the validation message.
    pub fn from_value(field: &'a str) -> (r: Result<NonEmptyString<'a>, String>)
        ensures
            trim_spec(field@).len() == 0 ==> (r matches Err(m) && m@ == "cannot be blank"@),
            trim_spec(field@).len() > 0 ==> (r matches Ok(n) && n@ == trim_spec(field@)),
    {
        let trimmed = trim(field);
        if trimmed.unicode_len() == 0 {
            Err("cannot be blank".to_owned())
        } else {
            Ok(NonEmptyString(trimmed))
        }
    }

    /// The validated text.
    pub fn as_str(&self) -> (r: &'a str)
        ensures
            r@ == self@,
    {
        self.0
    }
}

/// One validation error: the field it concerns, when known, and a message.
pub struct FieldError {
    pub name: Option<String>,
    pub message: String,
}

/// What a submitted form carried: field values by name, and the validation
/// errors raised against them.
pub struct FormContext {
    pub fields: Vec<(String, String)>,
    pub errors: Vec<FieldError>,
}

/// The value of the first field with this name, or nothing.
pub open spec fn value_for_rec(fields: Seq<(String, String)>, name: Seq<char>) -> Seq<char>
    decreases fields.len(),
{
    if fields.len() == 0 {
        Seq::empty()
    } else if fields[0].0@ == name {
        fields[0].1@
    } else {
        value_for_rec(fields.drop_first(), name)
    }
}

/// The humanised names of the errors that name a field, in order.
pub open spec fn error_names(errors: Seq<FieldError>) -> Seq<Seq<char>>
    decreases errors.len(),
{
    if errors.len() == 0 {
        Seq::empty()
    } else {
        let rest = error_names(errors.drop_first());
        match errors[0].name {
            Some(n) => seq![humanise_spec(n@)] + rest,
            None => rest,
        }
    }
}

/// The messages of the errors against this field, in order.
pub open spec fn messages_for(errors: Seq<FieldError>, name: Seq<char>) -> Seq<Seq<char>>
    decreases errors.len(),
{
    if errors.len() == 0 {
        Seq::empty()
    } else {
        let rest = messages_for(errors.drop_first(), name);
        match errors[0].name {
            Some(n) => if n@ == name {
                seq![errors[0].message@] + rest
            } else {
                rest
            },
            None => rest,
        }
    }
}

/// Reading a form context.
pub trait ContextExt {
    /// The value this context holds for the named field.
    spec fn value_for_spec(&self, name: Seq<char>) -> Seq<char>;

    /// The list the context's field errors join into.
    spec fn fields_with_errors_spec(&self) -> Seq<char>;

    /// The value for a field, or the empty string.
    fn value_for<'a>(&'a self, name: &str) -> (r: &'a str)
        ensures
            r@ == self.value_for_spec(name@),
    ;

    /// A comma-separated list of the fields with errors, humanised.
    fn fields_with_errors(&self) -> (r: String)
        ensures
            r@ == self.fields_with_errors_spec(),
    ;
}

proof fn lemma_value_for_skip(fields: Seq<(String, String)>, name: Seq<char>, i: int)
    requires
        0 <= i <= fields.len(),
        forall|j: int| 0 <= j < i ==> (#[trigger] fields[j]).0@ != name,
    ensures
        value_for_rec(fields, name) == value_for_rec(fields.skip(i), name),
    decreases i,
{
    if i > 0 {
        assert(fields[0].0@ != name);
        lemma_value_for_skip(fields.drop_first(), name, i - 1);
        assert(fields.drop_first().skip(i - 1) =~= fields.skip(i));
    } else {
        assert(fields.skip(0) =~= fields);
    }
}

proof fn lemma_error_names_push(errors: Seq<FieldError>, e: FieldError)
    ensures
        error_names(errors.push(e)) == error_names(errors) + (match e.name {
            Some(n) => seq![humanise_spec(n@)],
            None => Seq::<Seq<char>>::empty(),
        }),
    decreases errors.len(),
{
    let tail = match e.name {
        Some(n) => seq![humanise_spec(n@)],
        None => Seq::<Seq<char>>::empty(),
    };
    if errors.len() == 0 {
        assert(errors.push(e)[0] == e);
        assert(errors.push(e).drop_first() =~= Seq::<FieldError>::empty());
        assert(error_names(Seq::<FieldError>::empty()) == Seq::<Seq<char>>::empty());
        assert(errors =~= Seq::<FieldError>::empty());
        assert(error_names(errors.push(e)) =~= tail);
        assert(error_names(errors) + tail =~= tail);
    } else {
        assert(errors.push(e)[0] == errors[0]);
        assert(errors.push(e).drop_first() =~= errors.drop_first().push(e));
        lemma_error_names_push(errors.drop_first(), e);
        match errors[0].name {
            Some(n) => {
                assert(error_names(errors.push(e)) =~= error_names(errors) + tail);
            },
            None => {
                assert(error_names(errors.push(e)) =~= error_names(errors) + tail);
            },
        }
    }
}

proof fn lemma_messages_for_push(errors: Seq<FieldError>, name: Seq<char>, e: FieldError)
    ensures
        messages_for(errors.push(e), name) == messages_for(errors, name) + (match e.name {
            Some(n) => if n@ == name {
                seq![e.message@]
            } else {
                Seq::<Seq<char>>::empty()
            },
            None => Seq::<Seq<char>>::empty(),
        }),
    decreases errors.len(),
{
    let tail = match e.name {
        Some(n) => if n@ == name {
            seq![e.message@]
        } else {
            Seq::<Seq<char>>::empty()
        },
        None => Seq::<Seq<char>>::empty(),
    };
    if errors.len() == 0 {
        assert(errors.push(e)[0] == e);
        assert(errors.push(e).drop_first() =~= Seq::<FieldError>::empty());
        assert(messages_for(Seq::<FieldError>::empty(), name) == Seq::<Seq<char>>::empty());
        assert(errors =~= Seq::<FieldError>::empty());
        assert(messages_for(errors.push(e), name) =~= tail);
        assert(messages_for(errors, name) + tail =~= tail);
    } else {
        assert(errors.push(e)[0] == errors[0]);
        assert(errors.push(e).drop_first() =~= errors.drop_first().push(e));
        lemma_messages_for_push(errors.drop_first(), name, e);
        assert(messages_for(errors.push(e), name) =~= messages_for(errors, name) + tail);
    }
}

impl ContextExt for FormContext {
    open spec fn value_for_spec(&self, name: Seq<char>) -> Seq<char> {
        value_for_rec(self.fields@, name)
    }

    open spec fn fields_with_errors_spec(&self) -> Seq<char> {
        join_spec(error_names(self.errors@), ", "@)
    }

    fn value_for<'a>(&'a self, name: &str) -> (r: &'a str) {
        let mut i: usize = 0;
        while i < self.fields.len()
            invariant
                0 <= i <= self.fields@.len(),
                forall|j: int| 0 <= j < i ==> (#[trigger] self.fields@[j]).0@ != name@,
            decreases self.fields@.len() - i,
        {
            if str_eq(self.fields[i].0.as_str(), name) {
                proof {
                    lemma_value_for_skip(self.fields@, name@, i as int);
                    assert(self.fields@.skip(i as int)[0] == self.fields@[i as int]);
                }
                return self.fields[i].1.as_str();
            }
            i = i + 1;
        }
        proof {
            lemma_value_for_skip(self.fields@, name@, self.fields@.len() as int);
            assert(self.fields@.skip(self.fields@.len() as int) =~= Seq::<(String, String)>::empty());
            reveal_strlit("");
            assert(""@ =~= Seq::<char>::empty());
        }
        ""
    }

    fn fields_with_errors(&self) -> (r: String) {
        let mut names: Vec<String> = Vec::new();
        let mut i: usize = 0;
        while i < self.errors.len()
            invariant
                0 <= i <= self.errors@.len(),
                names@.map_values(|p: String| p@) == error_names(self.errors@.take(i as int)),
            decreases self.errors@.len() - i,
        {
            let e = &self.errors[i];
            proof {
                lemma_error_names_push(self.errors@.take(i as int), self.errors@[i as int]);
                assert(self.errors@.take(i as int).push(self.errors@[i as int]) =~= self.errors@.take(
                    i as int + 1,
                ));
            }
            match &e.name {
                Some(n) => {
                    let h = n.as_str().humanise();
                    names.push(h);
                    proof {
                        assert(names@.map_values(|p: String| p@) =~= error_names(
                            self.errors@.take(i as int + 1),
                        ));
                    }
                },
                None => {
                    proof {
                        assert(names@.map_values(|p: String| p@) =~= error_names(
                            self.errors@.take(i as int + 1),
                        ));
                    }
                },
            }
            i = i + 1;
        }
        proof {
            assert(self.errors@.take(self.errors@.len() as int) =~= self.errors@);
        }
        join_strings(&names, ", ")
    }
}

/// The flash message shown when a login form does not validate: the fields
/// with errors, humanised and joined.
pub fn login_error_message(context: &FormContext) -> (r: String)
    ensures
        r@ == "Unable to log in. Check these fields for errors: "@
            + context.fields_with_errors_spec(),
{
    let fields = context.fields_with_errors();
    let r = "Unable to log in. Check these fields for errors: ".to_owned().concat(
        fields.as_str(),
    );
    proof {
        assert(r@ =~= "Unable to log in. Check these fields for errors: "@
            + context.fields_with_errors_spec());
    }
    r
}

/// The messages of the errors raised against one field, in order.
pub fn field_errors(context: &FormContext, name: &str) -> (r: Vec<String>)
    ensures
        r@.map_values(|m: String| m@) == messages_for(context.errors@, name@),
{
    let mut messages: Vec<String> = Vec::new();
    let mut i: usize = 0;
    while i < context.errors.len()
        invariant
            0 <= i <= context.errors@.len(),
            messages@.map_values(|m: String| m@) == messages_for(
                context.errors@.take(i as int),
                name@,
            ),
        decreases context.errors@.len() - i,
    {
        let e = &context.errors[i];
        proof {
            lemma_messages_for_push(context.errors@.take(i as int), name@, context.errors@[i as int]);
            assert(context.errors@.take(i as int).push(context.errors@[i as int])
                =~= context.errors@.take(i as int + 1));
        }
        let matches_name = match &e.name {
            Some(n) => str_eq(n.as_str(), name),
            None => false,
        };
        if matches_name {
            messages.push(e.message.clone());
        }
        proof {
            assert(messages@.map_values(|m: String| m@) =~= messages_for(
                context.errors@.take(i as int + 1),
                name@,
            ));
        }
        i = i + 1;
    }
    proof {
        assert(context.errors@.take(context.errors@.len() as int) =~= context.errors@);
    }
    messages
}

} // verus!
