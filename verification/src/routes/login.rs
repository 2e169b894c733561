//! Login: credentials first, then either a session at once or a one-time
//! challenge that has to be answered.

use crate::domain::data_stores::validate_user_outcome;
use crate::domain::login_attempt_id::LoginAttemptId;
use crate::domain::two_fa_code::TwoFACode;
use crate::domain::data_stores::TwoFACodeStore;
use crate::domain::data_stores::UserStore;
use crate::domain::email::email_parses;
use crate::domain::email::normalized;
use crate::domain::email::Email;
use crate::domain::error::AuthAPIError;
use crate::domain::password::password_valid;
use crate::domain::password::Password;
use crate::domain::user::UserView;
use crate::routes::signup::signup_outcome;
use crate::routes::signup::signup_record;
use crate::secret::SecretText;
use crate::utils::auth::create_auth_cookie;
use crate::utils::auth::AuthCookie;
use crate::utils::auth::JWT_COOKIE_NAME;
use vstd::prelude::*;
use vstd::string::*;

verus! {

/// The HTTP status of a login that ended in a session.
pub const STATUS_OK: u16 = 200;

/// The HTTP status of a login that awaits its one-time code.
pub const STATUS_PARTIAL_CONTENT: u16 = 206;

/// A login request. It has no debug print, for it holds what was typed.
pub struct LoginRequest {
    pub email: String,
    pub password: SecretText,
}

/// The body of the answer to a login that was not refused.
#[derive(Debug)]
pub enum LoginResponse {
    RegularAuth,
    TwoFactorAuth(TwoFactorAuthResponse),
}

/// The body of the answer to a login that awaits its one-time code.
#[derive(Debug)]
pub struct TwoFactorAuthResponse {
    pub message: String,
    pub login_attempt_id: String,
}

/// A challenge that was stored and now has to reach the user by mail. The
/// body of the mail shows the code, so it is a secret too.
#[derive(Debug)]
pub struct TwoFAChallenge {
    pub recipient: Email,
    pub subject: String,
    pub body: SecretText,
    pub login_attempt_id: LoginAttemptId,
    pub code: TwoFACode,
}

/// What the caller has to do for a login whose credentials were right.
#[derive(Debug)]
pub enum LoginStep {
    /// Sign a session token for this address and hand it to [`handle_no_2fa`].
    IssueSession(Email),
    /// Send this mail and hand the outcome to [`finish_2fa`].
    SendCode(TwoFAChallenge),
}

/// Where a login stands once the credentials were looked at.
pub enum LoginVerdict {
    /// Address or password does not parse.
    InvalidCredentials,
    /// No such user, or another password.
    IncorrectCredentials,
    /// The credentials are right and the user asks for no one-time code.
    NoTwoFA,
    /// The credentials are right and the user asks for a one-time code.
    TwoFA,
}

/// The verdict on the credentials of a login, given the user records.
pub open spec fn login_verdict(
    users: Map<Seq<char>, UserView>,
    email: Seq<char>,
    password: Seq<char>,
) -> LoginVerdict {
    if !email_parses(email) || !password_valid(password) {
        LoginVerdict::InvalidCredentials
    } else if validate_user_outcome(users, normalized(email), password) is Err {
        LoginVerdict::IncorrectCredentials
    } else if users[normalized(email)].requires_2fa {
        LoginVerdict::TwoFA
    } else {
        LoginVerdict::NoTwoFA
    }
}

/// Whether `challenge` is a well-made mail for `email` and is, in `after`,
/// the pending challenge of that address in place of any that `before` held.
pub open spec fn challenge_issued(
    before: Map<Seq<char>, (Seq<char>, Seq<char>)>,
    after: Map<Seq<char>, (Seq<char>, Seq<char>)>,
    email: Seq<char>,
    challenge: TwoFAChallenge,
) -> bool {
    &&& challenge.recipient@ == email
    &&& challenge.subject@ == "Two Factor Authentication Code"@
    &&& challenge.body@ == "Your code is: "@ + challenge.code@
    &&& after == before.insert(email, (challenge.login_attempt_id@, challenge.code@))
}

/// Who signed up can log in: after a signup that was accepted, a login with
/// the same address and password is neither invalid nor incorrect, and it
/// asks for the one-time code exactly when the signup asked for it.
pub proof fn lemma_signup_then_login(
    users: Map<Seq<char>, UserView>,
    email: Seq<char>,
    password: Seq<char>,
    requires_2fa: bool,
)
    requires
        signup_outcome(users, email, password) is Ok,
    ensures
        login_verdict(
            users.insert(normalized(email), signup_record(email, password, requires_2fa)),
            email,
            password,
        ) == (if requires_2fa {
            LoginVerdict::TwoFA
        } else {
            LoginVerdict::NoTwoFA
        }),
{
}

/// Handles a login request up to the point where outside work is due.
///
/// A request whose address or password does not parse is refused as
/// invalid, without a word on which of the two it was. Credentials that the
/// user store does not confirm are refused as incorrect. For a user without
/// the one-time code the caller is told to issue a session; for one with it
/// a fresh challenge is stored and the caller is told to send it.
pub fn login<U: UserStore, T: TwoFACodeStore>(
    user_store: &U,
    two_fa_code_store: &mut T,
    request: LoginRequest,
) -> (r: Result<LoginStep, AuthAPIError>)
    ensures
        ({
            let verdict = login_verdict(user_store.users(), request.email@, request.password@);
            let before = old(two_fa_code_store).codes();
            let after = final(two_fa_code_store).codes();
            &&& verdict is InvalidCredentials <==> r is Err && r->Err_0
                == AuthAPIError::InvalidCredentials
            &&& verdict is IncorrectCredentials ==> r is Err && r->Err_0
                == AuthAPIError::IncorrectCredentials
            &&& r is Err ==> after == before && (r->Err_0 == AuthAPIError::InvalidCredentials
                || r->Err_0 == AuthAPIError::IncorrectCredentials || r->Err_0
                == AuthAPIError::UnexpectedError)
            &&& r is Err && r->Err_0 == AuthAPIError::UnexpectedError ==> verdict is TwoFA
            &&& r matches Ok(LoginStep::IssueSession(email)) ==> verdict is NoTwoFA && email@
                == normalized(request.email@) && after == before
            &&& r matches Ok(LoginStep::SendCode(challenge)) ==> verdict is TwoFA
                && challenge_issued(before, after, normalized(request.email@), challenge)
            &&& U::never_fails() && verdict is NoTwoFA ==> r is Ok
            &&& U::never_fails() && T::never_fails() && verdict is TwoFA ==> r is Ok
        }),
{
    let email = match Email::parse(request.email) {
        Ok(email) => email,
        Err(_) => {
            return Err(AuthAPIError::InvalidCredentials);
        },
    };
    let password = match Password::parse(request.password.expose_secret().clone()) {
        Ok(password) => password,
        Err(_) => {
            return Err(AuthAPIError::InvalidCredentials);
        },
    };
    if user_store.validate_user(&email, &password).is_err() {
        return Err(AuthAPIError::IncorrectCredentials);
    }
    let user = match user_store.get_user(&email) {
        Ok(user) => user,
        Err(_) => {
            return Err(AuthAPIError::IncorrectCredentials);
        },
    };
    if user.requires_2fa() {
        match handle_2fa(&email, two_fa_code_store) {
            Ok(challenge) => Ok(LoginStep::SendCode(challenge)),
            Err(e) => Err(e),
        }
    } else {
        Ok(LoginStep::IssueSession(email))
    }
}

/// Starts a one-time challenge for `email`: draws a fresh attempt id and a
/// fresh code, and stores the pair in place of any pending challenge of
/// that address. The mail is made ready; sending it is the caller's part.
pub fn handle_2fa<T: TwoFACodeStore>(email: &Email, two_fa_code_store: &mut T) -> (r: Result<
    TwoFAChallenge,
    AuthAPIError,
>)
    ensures
        r is Ok ==> challenge_issued(
            old(two_fa_code_store).codes(),
            final(two_fa_code_store).codes(),
            email@,
            r->Ok_0,
        ),
        r is Err ==> r->Err_0 == AuthAPIError::UnexpectedError && final(two_fa_code_store).codes()
            == old(two_fa_code_store).codes(),
        T::never_fails() ==> r is Ok,
{
    let login_attempt_id = LoginAttemptId::generate();
    let code = TwoFACode::generate();
    match two_fa_code_store.add_code(email.clone(), login_attempt_id.clone(), code.clone()) {
        Ok(()) => {
            let body: String = "Your code is: ".to_owned().concat(
                code.as_ref().expose_secret().as_str(),
            );
            Ok(
                TwoFAChallenge {
                    recipient: email.clone(),
                    subject: "Two Factor Authentication Code".to_owned(),
                    body: SecretText::new(body),
                    login_attempt_id,
                    code,
                },
            )
        },
        Err(_) => Err(AuthAPIError::UnexpectedError),
    }
}

/// Ends a login with a one-time challenge, once the mail was handed to the
/// transport: the answer names the attempt id if the mail went out, and the
/// login fails if it did not. The stored challenge stays either way.
pub fn finish_2fa(challenge: &TwoFAChallenge, email_sent: bool) -> (r: Result<
    (u16, LoginResponse),
    AuthAPIError,
>)
    ensures
        r is Ok <==> email_sent,
        r is Err ==> r->Err_0 == AuthAPIError::UnexpectedError,
        r is Ok ==> r->Ok_0.0 == STATUS_PARTIAL_CONTENT && (r->Ok_0.1 matches LoginResponse::TwoFactorAuth(
            body,
        ) && body.message@ == "2FA required"@ && body.login_attempt_id@
            == challenge.login_attempt_id@),
{
    if email_sent {
        Ok(
            (
                STATUS_PARTIAL_CONTENT,
                LoginResponse::TwoFactorAuth(
                    TwoFactorAuthResponse {
                        message: "2FA required".to_owned(),
                        login_attempt_id: challenge.login_attempt_id.as_ref().to_owned(),
                    },
                ),
            ),
        )
    } else {
        Err(AuthAPIError::UnexpectedError)
    }
}

/// Ends an authentication that needs no further proof, given the signed
/// session token if signing worked: the answer carries the session cookie
/// with that token, which is never empty.
pub fn handle_no_2fa(signed_token: Option<String>) -> (r: Result<
    (u16, LoginResponse, AuthCookie),
    AuthAPIError,
>)
    ensures
        r is Ok <==> signed_token is Some && signed_token->Some_0@.len() > 0,
        r is Err ==> r->Err_0 == AuthAPIError::UnexpectedError,
        r is Ok ==> r->Ok_0.0 == STATUS_OK && r->Ok_0.1 is RegularAuth,
        r is Ok ==> r->Ok_0.2.name@ == JWT_COOKIE_NAME@ && r->Ok_0.2.value@
            == signed_token->Some_0@ && r->Ok_0.2.path@ == "/"@ && r->Ok_0.2.http_only,
{
    match signed_token {
        Some(token) => {
            if token.as_str().is_empty() {
                Err(AuthAPIError::UnexpectedError)
            } else {
                Ok((STATUS_OK, LoginResponse::RegularAuth, create_auth_cookie(token)))
            }
        },
        None => Err(AuthAPIError::UnexpectedError),
    }
}

} // verus!
