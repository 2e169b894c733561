//! Verification of the one-time code that a login asked for.

use crate::domain::two_fa_code::is_two_fa_code;
use crate::domain::login_attempt_id::uuid_hyphenated;
use crate::domain::login_attempt_id::uuid_value;
use crate::domain::login_attempt_id::LoginAttemptId;
use crate::domain::two_fa_code::TwoFACode;
use crate::domain::data_stores::TwoFACodeStore;
use crate::domain::email::email_parses;
use crate::domain::email::normalized;
use crate::domain::email::Email;
use crate::domain::error::AuthAPIError;
use crate::secret::SecretText;
use vstd::prelude::*;

verus! {

/// A request to verify a one-time code. It has no debug print, for it holds
/// what was typed.
pub struct Verify2FARequest {
    pub email: String,
    pub login_attempt_id: String,
    pub two_fa_code: SecretText,
}

/// Whether the given pair answers the pending challenge of `email`: there
/// is one, and both the attempt id and the code are the stored ones.
pub open spec fn challenge_outcome(
    codes: Map<Seq<char>, (Seq<char>, Seq<char>)>,
    email: Seq<char>,
    login_attempt_id: Seq<char>,
    code: Seq<char>,
) -> Result<(), AuthAPIError> {
    if codes.contains_key(email) && codes[email] == (login_attempt_id, code) {
        Ok(())
    } else {
        Err(AuthAPIError::IncorrectCredentials)
    }
}

/// The pending challenges after an answer was checked: a challenge that
/// was answered is gone, every other one stays.
pub open spec fn codes_after_challenge(
    codes: Map<Seq<char>, (Seq<char>, Seq<char>)>,
    email: Seq<char>,
    login_attempt_id: Seq<char>,
    code: Seq<char>,
) -> Map<Seq<char>, (Seq<char>, Seq<char>)> {
    if challenge_outcome(codes, email, login_attempt_id, code) is Ok {
        codes.remove(email)
    } else {
        codes
    }
}

/// How a verification request ends, where the store does not fail
/// unexpectedly: refused as invalid where one of the three texts does not
/// parse, and otherwise as the parsed values answer the pending challenge.
pub open spec fn verify_2fa_outcome(
    codes: Map<Seq<char>, (Seq<char>, Seq<char>)>,
    email: Seq<char>,
    login_attempt_id: Seq<char>,
    code: Seq<char>,
) -> Result<(), AuthAPIError> {
    if !email_parses(email) || uuid_value(login_attempt_id) is None || !is_two_fa_code(code) {
        Err(AuthAPIError::InvalidCredentials)
    } else {
        challenge_outcome(
            codes,
            normalized(email),
            uuid_hyphenated(uuid_value(login_attempt_id)->Some_0),
            code,
        )
    }
}

/// An answer to a verification, without the address.
pub open spec fn verified_view(r: Result<Email, AuthAPIError>) -> Result<(), AuthAPIError> {
    match r {
        Ok(_) => Ok(()),
        Err(e) => Err(e),
    }
}

/// Checks an answer against the pending challenge of `email` and, where it
/// matches, drops the challenge in the same step, so that no answer counts
/// twice.
pub fn check_challenge<T: TwoFACodeStore>(
    two_fa_code_store: &mut T,
    email: &Email,
    login_attempt_id: &LoginAttemptId,
    code: &TwoFACode,
) -> (r: Result<(), AuthAPIError>)
    ensures
        ({
            let before = old(two_fa_code_store).codes();
            let after = final(two_fa_code_store).codes();
            let outcome = challenge_outcome(before, email@, login_attempt_id@, code@);
            &&& outcome is Err ==> r == outcome
            &&& r is Ok ==> outcome is Ok && after == before.remove(email@)
            &&& r is Err ==> after == before && (r->Err_0 == AuthAPIError::IncorrectCredentials
                || r->Err_0 == AuthAPIError::UnexpectedError)
            &&& T::never_fails() ==> r == outcome && after == codes_after_challenge(
                before,
                email@,
                login_attempt_id@,
                code@,
            )
        }),
{
    let (stored_id, stored_code) = match two_fa_code_store.get_code(email) {
        Ok(pair) => pair,
        Err(_) => {
            return Err(AuthAPIError::IncorrectCredentials);
        },
    };
    if !(stored_id == *login_attempt_id) || !(stored_code == *code) {
        return Err(AuthAPIError::IncorrectCredentials);
    }
    match two_fa_code_store.remove_code(email) {
        Ok(()) => Ok(()),
        Err(_) => Err(AuthAPIError::UnexpectedError),
    }
}

/// Handles a verification request. On success the challenge is spent and
/// the caller is handed the address for which to issue the session.
pub fn verify_2fa<T: TwoFACodeStore>(two_fa_code_store: &mut T, request: Verify2FARequest) -> (r:
    Result<Email, AuthAPIError>)
    ensures
        ({
            let before = old(two_fa_code_store).codes();
            let after = final(two_fa_code_store).codes();
            let outcome = verify_2fa_outcome(
                before,
                request.email@,
                request.login_attempt_id@,
                request.two_fa_code@,
            );
            &&& outcome is Err ==> verified_view(r) == outcome
            &&& r is Ok ==> outcome is Ok && r->Ok_0@ == normalized(request.email@) && after
                == before.remove(normalized(request.email@))
            &&& r is Err ==> after == before && (r->Err_0 == AuthAPIError::InvalidCredentials
                || r->Err_0 == AuthAPIError::IncorrectCredentials || r->Err_0
                == AuthAPIError::UnexpectedError)
            &&& r is Err && r->Err_0 == AuthAPIError::InvalidCredentials ==> outcome == Err::<
                (),
                AuthAPIError,
            >(AuthAPIError::InvalidCredentials)
            &&& T::never_fails() ==> verified_view(r) == outcome
        }),
{
    let email = match Email::parse(request.email) {
        Ok(email) => email,
        Err(_) => {
            return Err(AuthAPIError::InvalidCredentials);
        },
    };
    let login_attempt_id = match LoginAttemptId::parse(request.login_attempt_id) {
        Ok(id) => id,
        Err(_) => {
            return Err(AuthAPIError::InvalidCredentials);
        },
    };
    let code = match TwoFACode::parse(request.two_fa_code.expose_secret().clone()) {
        Ok(code) => code,
        Err(_) => {
            return Err(AuthAPIError::InvalidCredentials);
        },
    };
    match check_challenge(two_fa_code_store, &email, &login_attempt_id, &code) {
        Ok(()) => Ok(email),
        Err(e) => Err(e),
    }
}

/// A code counts once: after an answer was accepted, the same answer is
/// refused as incorrect.
pub proof fn lemma_code_is_single_use(
    codes: Map<Seq<char>, (Seq<char>, Seq<char>)>,
    email: Seq<char>,
    login_attempt_id: Seq<char>,
    code: Seq<char>,
)
    requires
        challenge_outcome(codes, email, login_attempt_id, code) is Ok,
    ensures
        challenge_outcome(
            codes_after_challenge(codes, email, login_attempt_id, code),
            email,
            login_attempt_id,
            code,
        ) == Err::<(), AuthAPIError>(AuthAPIError::IncorrectCredentials),
{
}

/// The same for whole requests: a verification request that was accepted
/// is refused as incorrect when it is sent again.
pub proof fn lemma_request_is_single_use(
    codes: Map<Seq<char>, (Seq<char>, Seq<char>)>,
    email: Seq<char>,
    login_attempt_id: Seq<char>,
    code: Seq<char>,
)
    requires
        verify_2fa_outcome(codes, email, login_attempt_id, code) is Ok,
    ensures
        verify_2fa_outcome(codes.remove(normalized(email)), email, login_attempt_id, code) == Err::<
            (),
            AuthAPIError,
        >(AuthAPIError::IncorrectCredentials),
{
}

/// A later login supersedes an earlier one: once a new challenge was stored
/// for an address, the pair of the earlier challenge is refused as
/// incorrect, unless the new pair happens to be the very same.
pub proof fn lemma_superseded_challenge_is_refused(
    codes: Map<Seq<char>, (Seq<char>, Seq<char>)>,
    email: Seq<char>,
    old_id: Seq<char>,
    old_code: Seq<char>,
    new_id: Seq<char>,
    new_code: Seq<char>,
)
    requires
        (old_id, old_code) != (new_id, new_code),
    ensures
        challenge_outcome(
            codes.insert(email, (old_id, old_code)).insert(email, (new_id, new_code)),
            email,
            old_id,
            old_code,
        ) == Err::<(), AuthAPIError>(AuthAPIError::IncorrectCredentials),
        challenge_outcome(
            codes.insert(email, (old_id, old_code)).insert(email, (new_id, new_code)),
            email,
            new_id,
            new_code,
        ) is Ok,
{
}

} // verus!
