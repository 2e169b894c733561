//! The user record.

use crate::domain::email::email_parses;
use crate::domain::email::normalized;
use crate::domain::email::Email;
use crate::domain::password::password_valid;
use crate::domain::password::Password;
use vstd::prelude::*;

verus! {

/// What a user record says, as plain values.
pub struct UserView {
    pub email: Seq<char>,
    pub password: Seq<char>,
    pub requires_2fa: bool,
}

/// A user: an address, a password, and whether login asks for a one-time
/// code. A record never changes after it is made.
#[derive(Debug)]
pub struct User {
    email: Email,
    password: Password,
    requires_2fa: bool,
}

/// Which of the two raw values kept a user from being made.
#[derive(Clone, Copy, Debug, PartialEq, Eq, Structural)]
pub enum UserParseError {
    CannotParseEmail,
    CannotParsePassword,
}

impl View for User {
    type V = UserView;

    closed spec fn view(&self) -> UserView {
        UserView {
            email: self.email@,
            password: self.password@,
            requires_2fa: self.requires_2fa,
        }
    }
}

impl User {
    /// The record of the given values.
    pub fn new(email: Email, password: Password, requires_2fa: bool) -> (user: User)
        ensures
            user@ == (UserView { email: email@, password: password@, requires_2fa }),
    {
        User { email, password, requires_2fa }
    }

    /// Makes a record of raw values. The address is looked at first: where it
    /// is refused the password is not examined.
    pub fn parse(email: String, password: String, requires_2fa: bool) -> (r: Result<
        User,
        UserParseError,
    >)
        ensures
            r == Err::<User, UserParseError>(UserParseError::CannotParseEmail) <==> !email_parses(
                email@,
            ),
            r is Ok <==> email_parses(email@) && password_valid(password@),
            r is Err ==> r->Err_0 == UserParseError::CannotParseEmail || r->Err_0
                == UserParseError::CannotParsePassword,
            r is Ok ==> r->Ok_0@ == (UserView {
                email: normalized(email@),
                password: password@,
                requires_2fa,
            }),
    {
        match Email::parse(email) {
            Ok(email) => match Password::parse(password) {
                Ok(password) => Ok(User { email, password, requires_2fa }),
                Err(_) => Err(UserParseError::CannotParsePassword),
            },
            Err(_) => Err(UserParseError::CannotParseEmail),
        }
    }

    /// The user's address.
    pub fn get_email(&self) -> (email: &Email)
        ensures
            email@ == self@.email,
    {
        &self.email
    }

    /// The user's password.
    pub fn get_password(&self) -> (password: &Password)
        ensures
            password@ == self@.password,
    {
        &self.password
    }

    /// Whether login asks this user for a one-time code.
    pub fn requires_2fa(&self) -> (flag: bool)
        ensures
            flag == self@.requires_2fa,
    {
        self.requires_2fa
    }
}

impl Clone for User {
    fn clone(&self) -> (copy: User)
        ensures
            copy@ == self@,
    {
        User {
            email: self.email.clone(),
            password: self.password.clone(),
            requires_2fa: self.requires_2fa,
        }
    }
}

impl PartialEq for User {
    fn eq(&self, other: &User) -> (r: bool) {
        self.email == other.email && self.password == other.password && self.requires_2fa
            == other.requires_2fa
    }
}

impl vstd::std_specs::cmp::PartialEqSpecImpl for User {
    open spec fn obeys_eq_spec() -> bool {
        true
    }

    open spec fn eq_spec(&self, other: &User) -> bool {
        self@ == other@
    }
}

} // verus!
