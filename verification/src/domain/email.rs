//! E-mail addresses: the key under which every per-user record is kept.

use crate::domain::error::ValidationError;
use crate::secret::SecretText;
use validator::ValidateEmail;
use vstd::prelude::*;
use vstd::string::*;

verus! {

/// The least number of characters in an address.
pub const EMAIL_MIN_LEN: usize = 8;

/// The verdict of the `validator` crate on `text`: whether it is an address
/// by the rules of the HTML5 specification.
pub uninterp spec fn validator_accepts_email(text: Seq<char>) -> bool;

/// `validator::ValidateEmail::validate_email` on a string slice. Its verdict
/// depends on the text alone.
#[verifier::external_body]
fn validator_verdict(text: &str) -> (ok: bool)
    ensures
        ok == validator_accepts_email(text@),
{
    text.validate_email()
}

/// `c` with an upper-case ASCII letter replaced by its lower-case form.
pub open spec fn ascii_lower(c: char) -> char {
    if 'A' <= c && c <= 'Z' {
        ((c as u8) + 32) as char
    } else {
        c
    }
}

/// `text` with every upper-case ASCII letter replaced by its lower-case form.
pub open spec fn normalized(text: Seq<char>) -> Seq<char> {
    Seq::new(text.len(), |i: int| ascii_lower(text[i]))
}

/// `str::to_ascii_lowercase`: a copy in which `A` to `Z` became `a` to `z`
/// and every other character is unchanged.
#[verifier::external_body]
fn to_ascii_lowercase(text: &str) -> (lower: String)
    ensures
        lower@ == normalized(text@),
{
    text.to_ascii_lowercase()
}

/// Whether `at` is the place of the only `@` in `text`.
pub open spec fn sole_at_sign(text: Seq<char>, at: int) -> bool {
    &&& 0 <= at < text.len()
    &&& text[at] == '@'
    &&& forall|k: int| 0 <= k < text.len() && k != at ==> text[k] != '@'
}

/// Whether a `.` stands somewhere behind position `at`.
pub open spec fn dot_after(text: Seq<char>, at: int) -> bool {
    exists|j: int| at < j < text.len() && text[j] == '.'
}

/// The shape of an address: long enough, exactly one `@`, and a `.` behind it.
pub open spec fn email_shape(text: Seq<char>) -> bool {
    &&& text.len() >= EMAIL_MIN_LEN
    &&& exists|at: int| sole_at_sign(text, at) && dot_after(text, at)
}

/// What an address is: text in normal form that has the shape of an address
/// and that the validator accepts.
pub open spec fn email_valid(text: Seq<char>) -> bool {
    &&& normalized(text) == text
    &&& validator_accepts_email(text)
    &&& email_shape(text)
}

/// Whether a raw text is accepted as an address: its normal form is one.
pub open spec fn email_parses(raw: Seq<char>) -> bool {
    validator_accepts_email(normalized(raw)) && email_shape(normalized(raw))
}

/// Decides [`email_shape`] in one pass over the text.
pub fn has_email_shape(text: &str) -> (ok: bool)
    ensures
        ok == email_shape(text@),
{
    let n: usize = text.unicode_len();
    let mut first_at: Option<usize> = None;
    let mut second_at: bool = false;
    let mut dot: bool = false;
    let mut i: usize = 0;
    while i < n
        invariant
            n == text@.len(),
            i <= n,
            first_at is None ==> !second_at && !dot && forall|k: int|
                0 <= k < i ==> text@[k] != '@',
            first_at matches Some(a) ==> {
                &&& a < i
                &&& text@[a as int] == '@'
                &&& forall|k: int| 0 <= k < a ==> text@[k] != '@'
                &&& second_at <==> exists|k: int| a < k < i && text@[k] == '@'
                &&& dot <==> exists|j: int| a < j < i && text@[j] == '.'
            },
        decreases n - i,
    {
        let c: char = text.get_char(i);
        match first_at {
            None => {
                if c == '@' {
                    first_at = Some(i);
                }
            },
            Some(a) => {
                if c == '@' {
                    second_at = true;
                }
                if c == '.' {
                    dot = true;
                }
            },
        }
        i = i + 1;
    }
    let ok: bool = n >= EMAIL_MIN_LEN && first_at.is_some() && !second_at && dot;
    proof {
        let s = text@;
        if ok {
            let a = first_at->Some_0 as int;
            assert(sole_at_sign(s, a));
            assert(dot_after(s, a));
        }
        if email_shape(s) {
            let at = choose|at: int| sole_at_sign(s, at) && dot_after(s, at);
            assert(first_at is Some);
            let a = first_at->Some_0 as int;
            assert(a == at);
            let j = choose|j: int| at < j < s.len() && s[j] == '.';
            assert(a < j < i && s[j] == '.');
        }
    }
    ok
}

/// A validated address in normal form. It is held as a secret, so that a
/// debug print of a request or a record never shows it.
#[derive(Debug)]
pub struct Email(SecretText);

impl View for Email {
    type V = Seq<char>;

    closed spec fn view(&self) -> Seq<char> {
        self.0@
    }
}

impl Email {
    #[verifier::type_invariant]
    spec fn inv(self) -> bool {
        email_valid(self.0@)
    }

    /// Brings `raw` into normal form and accepts it exactly when the result
    /// is an address: the validator accepts it and it has the shape of one.
    pub fn parse(raw: String) -> (r: Result<Email, ValidationError>)
        ensures
            r is Ok <==> email_parses(raw@),
            r is Ok ==> r->Ok_0@ == normalized(raw@),
            r is Err ==> r->Err_0 == ValidationError::InvalidEmail,
    {
        let lower: String = to_ascii_lowercase(raw.as_str());
        proof {
            lemma_normalized_idempotent(raw@);
        }
        if validator_verdict(lower.as_str()) && has_email_shape(lower.as_str()) {
            Ok(Email(SecretText::new(lower)))
        } else {
            Err(ValidationError::InvalidEmail)
        }
    }

    /// The secret that holds the address, which is always a valid one.
    pub fn as_ref(&self) -> (s: &SecretText)
        ensures
            s@ == self@,
            email_valid(self@),
    {
        proof {
            use_type_invariant(self);
        }
        &self.0
    }
}

/// Normal form is stable: bringing a text into normal form twice changes
/// nothing more.
pub proof fn lemma_normalized_idempotent(text: Seq<char>)
    ensures
        normalized(normalized(text)) == normalized(text),
{
    assert forall|c: char| ascii_lower(ascii_lower(c)) == ascii_lower(c) by {}
    assert(normalized(normalized(text)) =~= normalized(text));
}

/// An address parses to itself: the normal form of a text that is accepted
/// is accepted too, and is its own normal form.
pub proof fn lemma_accepted_form_is_accepted(raw: Seq<char>)
    requires
        email_parses(raw),
    ensures
        email_parses(normalized(raw)),
        email_valid(normalized(raw)),
{
    lemma_normalized_idempotent(raw);
}

impl Clone for Email {
    fn clone(&self) -> (copy: Email)
        ensures
            copy@ == self@,
    {
        proof {
            use_type_invariant(self);
        }
        Email(self.0.clone())
    }
}

impl PartialEq for Email {
    fn eq(&self, other: &Email) -> (r: bool) {
        self.0.same_text(&other.0)
    }
}

impl Eq for Email {}

impl vstd::std_specs::cmp::PartialEqSpecImpl for Email {
    open spec fn obeys_eq_spec() -> bool {
        true
    }

    open spec fn eq_spec(&self, other: &Email) -> bool {
        self@ == other@
    }
}

} // verus!
