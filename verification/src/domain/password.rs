//! Passwords: secret text of at least eight characters.

use crate::domain::error::ValidationError;
use crate::secret::SecretText;
use vstd::prelude::*;
use vstd::string::*;

verus! {

/// The least number of characters in a password.
pub const PASSWORD_MIN_LEN: usize = 8;

/// Whether `text` is long enough to be a password.
pub open spec fn password_valid(text: Seq<char>) -> bool {
    text.len() >= PASSWORD_MIN_LEN
}

/// A validated password. Its text is kept secret: the debug print is redacted,
/// and two passwords are compared only by explicit equality.
#[derive(Debug)]
pub struct Password(SecretText);

impl View for Password {
    type V = Seq<char>;

    closed spec fn view(&self) -> Seq<char> {
        self.0@
    }
}

/// Whether `s` has at least eight characters.
fn validate_password(s: &String) -> (ok: bool)
    ensures
        ok == password_valid(s@),
{
    s.as_str().unicode_len() >= PASSWORD_MIN_LEN
}

impl Password {
    #[verifier::type_invariant]
    spec fn inv(self) -> bool {
        password_valid(self.0@)
    }

    /// Accepts `raw` exactly when it has at least eight characters, and keeps it unchanged.
    pub fn parse(raw: String) -> (r: Result<Password, ValidationError>)
        ensures
            r is Ok <==> password_valid(raw@),
            r is Ok ==> r->Ok_0@ == raw@,
            r is Err ==> r->Err_0 == ValidationError::InvalidPassword,
    {
        if validate_password(&raw) {
            Ok(Password(SecretText::new(raw)))
        } else {
            Err(ValidationError::InvalidPassword)
        }
    }

    /// The secret that holds the password's text, which is always a valid password.
    pub fn as_ref(&self) -> (s: &SecretText)
        ensures
            s@ == self@,
            password_valid(self@),
    {
        proof {
            use_type_invariant(self);
        }
        &self.0
    }
}

impl Clone for Password {
    fn clone(&self) -> (copy: Password)
        ensures
            copy@ == self@,
    {
        proof {
            use_type_invariant(self);
        }
        Password(self.0.clone())
    }
}

impl PartialEq for Password {
    fn eq(&self, other: &Password) -> (r: bool) {
        self.0.same_text(&other.0)
    }
}

impl vstd::std_specs::cmp::PartialEqSpecImpl for Password {
    open spec fn obeys_eq_spec() -> bool {
        true
    }

    open spec fn eq_spec(&self, other: &Password) -> bool {
        self@ == other@
    }
}

} // verus!
