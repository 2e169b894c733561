//! The identifier of a login attempt that awaits its one-time code.

use crate::domain::error::ValidationError;
use vstd::arithmetic::power::pow;
use vstd::prelude::*;

verus! {

/// What `uuid::Uuid::parse_str` makes of a text: the 128-bit value of the
/// UUID it denotes, or nothing where the text is no UUID.
pub uninterp spec fn uuid_value(text: Seq<char>) -> Option<u128>;

/// `uuid::Uuid::parse_str`, with the UUID handed back as its 128-bit value.
/// What it returns depends on the text alone.
#[verifier::external_body]
fn uuid_parse(text: &str) -> (r: Option<u128>)
    ensures
        r == uuid_value(text@),
{
    match uuid::Uuid::parse_str(text) {
        Ok(id) => Some(id.as_u128()),
        Err(_) => None,
    }
}

/// The hexadecimal digit, lower case, of a number below sixteen.
pub open spec fn hex_digit(d: int) -> char {
    if d < 10 {
        ((48 + d) as u8) as char
    } else {
        ((87 + d) as u8) as char
    }
}

/// The number of hyphens in front of place `i` of a hyphenated UUID.
pub open spec fn hyphens_before(i: int) -> int {
    if i < 8 {
        0
    } else if i < 13 {
        1
    } else if i < 18 {
        2
    } else if i < 23 {
        3
    } else {
        4
    }
}

/// The hyphenated lower-case text of a UUID: its thirty-two hexadecimal
/// digits, most significant first, in groups of 8, 4, 4, 4 and 12.
pub open spec fn uuid_hyphenated(value: u128) -> Seq<char> {
    Seq::new(
        36,
        |i: int|
            if i == 8 || i == 13 || i == 18 || i == 23 {
                '-'
            } else {
                hex_digit((value as int / pow(16, (31 - (i - hyphens_before(i))) as nat)) % 16)
            },
    )
}

/// `Display` of `uuid::Uuid`, for the UUID with the given 128-bit value:
/// the hyphenated lower-case text.
#[verifier::external_body]
fn uuid_format(value: u128) -> (text: String)
    ensures
        text@ == uuid_hyphenated(value),
{
    uuid::Uuid::from_u128(value).to_string()
}

/// `uuid::Uuid::new_v4`, as its 128-bit value. Every call draws anew, so
/// nothing is said of the outcome.
#[verifier::external_body]
fn uuid_random() -> (value: u128) {
    uuid::Uuid::new_v4().as_u128()
}

/// The identifier of one login attempt that awaits its one-time code: a
/// UUID in hyphenated lower-case text.
#[derive(Debug)]
pub struct LoginAttemptId {
    value: u128,
    text: String,
}

impl View for LoginAttemptId {
    type V = Seq<char>;

    closed spec fn view(&self) -> Seq<char> {
        self.text@
    }
}

impl LoginAttemptId {
    #[verifier::type_invariant]
    spec fn inv(self) -> bool {
        self.text@ == uuid_hyphenated(self.value)
    }

    /// Accepts `id` exactly when it denotes a UUID, and keeps that UUID in
    /// hyphenated lower-case text, whatever form `id` had.
    pub fn parse(id: String) -> (r: Result<LoginAttemptId, ValidationError>)
        ensures
            r is Ok <==> uuid_value(id@) is Some,
            r is Ok ==> r->Ok_0@ == uuid_hyphenated(uuid_value(id@)->Some_0),
            r is Err ==> r->Err_0 == ValidationError::InvalidLoginAttemptId,
    {
        LoginAttemptId::from_parsed(uuid_parse(id.as_str()))
    }

    /// The identifier for the outcome of reading a UUID: the one with the
    /// given value, or the error where there is none.
    pub fn from_parsed(parsed: Option<u128>) -> (r: Result<LoginAttemptId, ValidationError>)
        ensures
            r is Ok <==> parsed is Some,
            r is Ok ==> r->Ok_0@ == uuid_hyphenated(parsed->Some_0),
            r is Err ==> r->Err_0 == ValidationError::InvalidLoginAttemptId,
    {
        match parsed {
            Some(value) => Ok(LoginAttemptId::from_value(value)),
            None => Err(ValidationError::InvalidLoginAttemptId),
        }
    }

    /// The identifier with the given 128-bit value.
    pub fn from_value(value: u128) -> (id: LoginAttemptId)
        ensures
            id@ == uuid_hyphenated(value),
    {
        LoginAttemptId { value, text: uuid_format(value) }
    }

    /// A fresh identifier, drawn at random.
    pub fn generate() -> (id: LoginAttemptId)
        ensures
            exists|value: u128| id@ == uuid_hyphenated(value),
    {
        let value: u128 = uuid_random();
        LoginAttemptId::from_value(value)
    }

    /// The identifier's text, which is always a hyphenated UUID of 36 characters.
    pub fn as_ref(&self) -> (text: &str)
        ensures
            text@ == self@,
            exists|value: u128| self@ == uuid_hyphenated(value),
            self@.len() == 36,
    {
        proof {
            use_type_invariant(self);
        }
        self.text.as_str()
    }
}

impl Clone for LoginAttemptId {
    fn clone(&self) -> (copy: LoginAttemptId)
        ensures
            copy@ == self@,
    {
        proof {
            use_type_invariant(self);
        }
        LoginAttemptId { value: self.value, text: self.text.clone() }
    }
}

impl PartialEq for LoginAttemptId {
    fn eq(&self, other: &LoginAttemptId) -> (r: bool) {
        self.text == other.text
    }
}

impl vstd::std_specs::cmp::PartialEqSpecImpl for LoginAttemptId {
    open spec fn obeys_eq_spec() -> bool {
        true
    }

    open spec fn eq_spec(&self, other: &LoginAttemptId) -> bool {
        self@ == other@
    }
}

} // verus!
