//! The three stores behind the protocol, as interfaces: what each holds,
//! and what each call returns and changes.

use crate::domain::email::Email;
use crate::domain::login_attempt_id::LoginAttemptId;
use crate::domain::password::Password;
use crate::domain::two_fa_code::TwoFACode;
use crate::domain::user::User;
use crate::domain::user::UserView;
use vstd::prelude::*;

verus! {

/// Why a call on a user store failed.
#[derive(Clone, Copy, Debug, PartialEq, Eq, Structural)]
pub enum UserStoreError {
    UserAlreadyExists,
    UserNotFound,
    InvalidCredentials,
    UnexpectedError,
}

/// Why a call on a denylist failed.
#[derive(Clone, Copy, Debug, PartialEq, Eq, Structural)]
pub enum BannedTokenStoreError {
    UnexpectedError,
}

/// Why a call on a store of pending challenges failed.
#[derive(Clone, Copy, Debug, PartialEq, Eq, Structural)]
pub enum TwoFACodeStoreError {
    LoginAttemptIdNotFound,
    UnexpectedError,
}

/// What adding `user` to `users` returns, where nothing unexpected happens.
pub open spec fn add_user_outcome(users: Map<Seq<char>, UserView>, user: UserView) -> Result<
    (),
    UserStoreError,
> {
    if users.contains_key(user.email) {
        Err(UserStoreError::UserAlreadyExists)
    } else {
        Ok(())
    }
}

/// The records after `user` was offered to `users`: a record that is there
/// stays as it is.
pub open spec fn users_after_add(users: Map<Seq<char>, UserView>, user: UserView) -> Map<
    Seq<char>,
    UserView,
> {
    if users.contains_key(user.email) {
        users
    } else {
        users.insert(user.email, user)
    }
}

/// What looking up `email` in `users` returns, where nothing unexpected happens.
pub open spec fn get_user_outcome(users: Map<Seq<char>, UserView>, email: Seq<char>) -> Result<
    UserView,
    UserStoreError,
> {
    if users.contains_key(email) {
        Ok(users[email])
    } else {
        Err(UserStoreError::UserNotFound)
    }
}

/// What checking `password` against the record of `email` returns, where
/// nothing unexpected happens.
pub open spec fn validate_user_outcome(
    users: Map<Seq<char>, UserView>,
    email: Seq<char>,
    password: Seq<char>,
) -> Result<(), UserStoreError> {
    if !users.contains_key(email) {
        Err(UserStoreError::UserNotFound)
    } else if users[email].password == password {
        Ok(())
    } else {
        Err(UserStoreError::InvalidCredentials)
    }
}

/// A looked-up record, as plain values.
pub open spec fn user_result_view(r: Result<User, UserStoreError>) -> Result<
    UserView,
    UserStoreError,
> {
    match r {
        Ok(user) => Ok(user@),
        Err(e) => Err(e),
    }
}

/// What looking up the pending challenge of `email` returns, where nothing
/// unexpected happens.
pub open spec fn get_code_outcome(
    codes: Map<Seq<char>, (Seq<char>, Seq<char>)>,
    email: Seq<char>,
) -> Result<(Seq<char>, Seq<char>), TwoFACodeStoreError> {
    if codes.contains_key(email) {
        Ok(codes[email])
    } else {
        Err(TwoFACodeStoreError::LoginAttemptIdNotFound)
    }
}

/// What dropping the pending challenge of `email` returns, where nothing
/// unexpected happens.
pub open spec fn remove_code_outcome(
    codes: Map<Seq<char>, (Seq<char>, Seq<char>)>,
    email: Seq<char>,
) -> Result<(), TwoFACodeStoreError> {
    if codes.contains_key(email) {
        Ok(())
    } else {
        Err(TwoFACodeStoreError::LoginAttemptIdNotFound)
    }
}

/// A looked-up challenge, as plain values.
pub open spec fn code_result_view(
    r: Result<(LoginAttemptId, TwoFACode), TwoFACodeStoreError>,
) -> Result<(Seq<char>, Seq<char>), TwoFACodeStoreError> {
    match r {
        Ok(pair) => Ok((pair.0@, pair.1@)),
        Err(e) => Err(e),
    }
}

/// Offering a second record with the address of one that was offered
/// before is refused with `UserAlreadyExists`, whatever the store held and
/// whatever else the two records say.
pub proof fn lemma_second_add_is_refused(
    users: Map<Seq<char>, UserView>,
    first: UserView,
    second: UserView,
)
    requires
        first.email == second.email,
    ensures
        add_user_outcome(users_after_add(users, first), second) == Err::<(), UserStoreError>(
            UserStoreError::UserAlreadyExists,
        ),
        users_after_add(users_after_add(users, first), second) == users_after_add(users, first),
{
}

/// The challenge that was added last for an address is the one that a
/// lookup returns, and it is the only one: an earlier challenge of that
/// address is gone.
pub proof fn lemma_added_code_is_pending(
    codes: Map<Seq<char>, (Seq<char>, Seq<char>)>,
    email: Seq<char>,
    login_attempt_id: Seq<char>,
    code: Seq<char>,
)
    ensures
        get_code_outcome(codes.insert(email, (login_attempt_id, code)), email) == Ok::<
            (Seq<char>, Seq<char>),
            TwoFACodeStoreError,
        >((login_attempt_id, code)),
{
}

/// A token that was never revoked is not on the denylist, and one that was
/// just revoked is, whatever was revoked before.
pub proof fn lemma_revoked_token_is_listed(tokens: Set<Seq<char>>, token: Seq<char>)
    ensures
        !Set::<Seq<char>>::empty().contains(token),
        tokens.insert(token).contains(token),
        tokens.contains(token) ==> tokens.insert(token) == tokens,
{
    if tokens.contains(token) {
        assert(tokens.insert(token) =~= tokens);
    }
}

/// User records, keyed by address.
///
/// A backend may fail on any call with `UnexpectedError` and then leaves its
/// contents as they were. One whose `never_fails` is true does not, and every
/// outcome of a call on it is fixed by its contents and the arguments.
pub trait UserStore {
    /// The records held, by address.
    spec fn users(&self) -> Map<Seq<char>, UserView>;

    /// Whether this kind of store is free of unexpected failures.
    spec fn never_fails() -> bool;

    /// Adds a record unless one with the same address is there. The check
    /// and the insertion are one step.
    fn add_user(&mut self, user: User) -> (r: Result<(), UserStoreError>)
        ensures
            r == add_user_outcome(old(self).users(), user@) || r == Err::<(), UserStoreError>(
                UserStoreError::UnexpectedError,
            ),
            Self::never_fails() ==> r == add_user_outcome(old(self).users(), user@),
            Self::never_fails() ==> final(self).users() == users_after_add(
                old(self).users(),
                user@,
            ),
            r is Ok ==> final(self).users() == old(self).users().insert(user@.email, user@),
            r is Err ==> final(self).users() == old(self).users(),
    ;

    /// The record kept under `email`.
    fn get_user(&self, email: &Email) -> (r: Result<User, UserStoreError>)
        ensures
            user_result_view(r) == get_user_outcome(self.users(), email@) || user_result_view(r)
                == Err::<UserView, UserStoreError>(UserStoreError::UnexpectedError),
            Self::never_fails() ==> user_result_view(r) == get_user_outcome(self.users(), email@),
    ;

    /// Whether `password` is the one kept under `email`.
    fn validate_user(&self, email: &Email, password: &Password) -> (r: Result<(), UserStoreError>)
        ensures
            r == validate_user_outcome(self.users(), email@, password@) || r == Err::<
                (),
                UserStoreError,
            >(UserStoreError::UnexpectedError),
            Self::never_fails() ==> r == validate_user_outcome(self.users(), email@, password@),
    ;
}

/// The denylist of revoked session tokens.
pub trait BannedTokenStore {
    /// The tokens revoked so far.
    spec fn tokens(&self) -> Set<Seq<char>>;

    /// Whether this kind of store is free of unexpected failures.
    spec fn never_fails() -> bool;

    /// Revokes `token`. Revoking a token again succeeds and changes nothing.
    fn add_token(&mut self, token: String) -> (r: Result<(), BannedTokenStoreError>)
        ensures
            r is Ok ==> final(self).tokens() == old(self).tokens().insert(token@),
            r is Err ==> final(self).tokens() == old(self).tokens(),
            Self::never_fails() ==> r is Ok,
    ;

    /// Whether `token` was revoked. The store is left as it is.
    fn contains_token(&self, token: String) -> (r: Result<bool, BannedTokenStoreError>)
        ensures
            r is Ok ==> r->Ok_0 == self.tokens().contains(token@),
            Self::never_fails() ==> r is Ok,
    ;
}

/// Pending one-time challenges: for each address at most one pair of
/// attempt id and code.
pub trait TwoFACodeStore {
    /// The pending challenges, by address: the attempt id and the code.
    spec fn codes(&self) -> Map<Seq<char>, (Seq<char>, Seq<char>)>;

    /// Whether this kind of store is free of unexpected failures.
    spec fn never_fails() -> bool;

    /// Makes the given pair the pending challenge of `email`, in place of
    /// any that was there.
    fn add_code(&mut self, email: Email, login_attempt_id: LoginAttemptId, code: TwoFACode) -> (r:
        Result<(), TwoFACodeStoreError>)
        ensures
            r is Ok ==> final(self).codes() == old(self).codes().insert(
                email@,
                (login_attempt_id@, code@),
            ),
            r is Err ==> r->Err_0 == TwoFACodeStoreError::UnexpectedError,
            r is Err ==> final(self).codes() == old(self).codes(),
            Self::never_fails() ==> r is Ok,
    ;

    /// Drops the pending challenge of `email`.
    fn remove_code(&mut self, email: &Email) -> (r: Result<(), TwoFACodeStoreError>)
        ensures
            r == remove_code_outcome(old(self).codes(), email@) || r == Err::<
                (),
                TwoFACodeStoreError,
            >(TwoFACodeStoreError::UnexpectedError),
            Self::never_fails() ==> r == remove_code_outcome(old(self).codes(), email@),
            r is Ok ==> final(self).codes() == old(self).codes().remove(email@),
            r is Err ==> final(self).codes() == old(self).codes(),
    ;

    /// The pending challenge of `email`.
    fn get_code(&self, email: &Email) -> (r: Result<(LoginAttemptId, TwoFACode), TwoFACodeStoreError>)
        ensures
            code_result_view(r) == get_code_outcome(self.codes(), email@) || code_result_view(r)
                == Err::<(Seq<char>, Seq<char>), TwoFACodeStoreError>(
                TwoFACodeStoreError::UnexpectedError,
            ),
            Self::never_fails() ==> code_result_view(r) == get_code_outcome(self.codes(), email@),
    ;
}

} // verus!
