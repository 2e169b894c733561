//! Signup: a new user record.

use crate::domain::data_stores::UserStore;
use crate::domain::data_stores::UserStoreError;
use crate::domain::email::email_parses;
use crate::domain::email::normalized;
use crate::domain::email::Email;
use crate::domain::error::AuthAPIError;
use crate::domain::password::password_valid;
use crate::domain::password::Password;
use crate::domain::user::User;
use crate::domain::user::UserView;
use crate::secret::SecretText;
use vstd::prelude::*;

verus! {

/// The HTTP status of a signup that made a record.
pub const STATUS_CREATED: u16 = 201;

/// A signup request. Both texts are secrets until they are parsed.
pub struct SignupRequest {
    pub email: SecretText,
    pub password: SecretText,
    pub requires_2fa: bool,
}

/// The body of the answer to a signup that made a record.
#[derive(Debug)]
pub struct SignupResponse {
    pub message: String,
}

/// How a signup ends, where the store does not fail unexpectedly: refused
/// as invalid where address or password does not parse, as a duplicate
/// where the address has a record, and accepted otherwise.
pub open spec fn signup_outcome(
    users: Map<Seq<char>, UserView>,
    email: Seq<char>,
    password: Seq<char>,
) -> Result<(), AuthAPIError> {
    if !email_parses(email) || !password_valid(password) {
        Err(AuthAPIError::InvalidCredentials)
    } else if users.contains_key(normalized(email)) {
        Err(AuthAPIError::UserAlreadyExists)
    } else {
        Ok(())
    }
}

/// The record that a signup with these values makes.
pub open spec fn signup_record(email: Seq<char>, password: Seq<char>, requires_2fa: bool) -> UserView {
    UserView { email: normalized(email), password, requires_2fa }
}

/// An answer to a signup, without its body.
pub open spec fn signup_result_view(r: Result<(u16, SignupResponse), AuthAPIError>) -> Result<
    (),
    AuthAPIError,
> {
    match r {
        Ok(_) => Ok(()),
        Err(e) => Err(e),
    }
}

/// Handles a signup request: parses address and password, and adds the
/// record in one step with the check for a duplicate.
pub fn signup<S: UserStore>(user_store: &mut S, request: SignupRequest) -> (r: Result<
    (u16, SignupResponse),
    AuthAPIError,
>)
    ensures
        ({
            let before = old(user_store).users();
            let after = final(user_store).users();
            let outcome = signup_outcome(before, request.email@, request.password@);
            &&& signup_result_view(r) == outcome || (r is Err && r->Err_0
                == AuthAPIError::UnexpectedError && outcome != Err::<(), AuthAPIError>(
                AuthAPIError::InvalidCredentials,
            ))
            &&& S::never_fails() ==> signup_result_view(r) == outcome
            &&& r is Ok ==> r->Ok_0.0 == STATUS_CREATED && r->Ok_0.1.message@
                == "User created successfully!"@
            &&& r is Ok ==> after == before.insert(
                normalized(request.email@),
                signup_record(request.email@, request.password@, request.requires_2fa),
            )
            &&& r is Err ==> after == before
        }),
{
    let email = match Email::parse(request.email.expose_secret().clone()) {
        Ok(email) => email,
        Err(_) => {
            return Err(AuthAPIError::InvalidCredentials);
        },
    };
    let password = match Password::parse(request.password.expose_secret().clone()) {
        Ok(password) => password,
        Err(_) => {
            return Err(AuthAPIError::InvalidCredentials);
        },
    };
    let user = User::new(email, password, request.requires_2fa);
    match user_store.add_user(user) {
        Ok(()) => Ok(
            (STATUS_CREATED, SignupResponse { message: "User created successfully!".to_owned() }),
        ),
        Err(UserStoreError::UserAlreadyExists) => Err(AuthAPIError::UserAlreadyExists),
        Err(_) => Err(AuthAPIError::UnexpectedError),
    }
}

/// A second signup with the address of an accepted one is refused as a
/// duplicate, whatever password and flag it brings, as long as they parse.
pub proof fn lemma_signup_twice(
    users: Map<Seq<char>, UserView>,
    email: Seq<char>,
    password: Seq<char>,
    requires_2fa: bool,
    other_password: Seq<char>,
)
    requires
        signup_outcome(users, email, password) is Ok,
        password_valid(other_password),
    ensures
        signup_outcome(
            users.insert(normalized(email), signup_record(email, password, requires_2fa)),
            email,
            other_password,
        ) == Err::<(), AuthAPIError>(AuthAPIError::UserAlreadyExists),
{
}

} // verus!
