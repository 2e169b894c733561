//! Pending one-time challenges in a hash map.

use crate::domain::data_stores::code_result_view;
use crate::domain::data_stores::get_code_outcome;
use crate::domain::data_stores::remove_code_outcome;
use crate::domain::login_attempt_id::LoginAttemptId;
use crate::domain::two_fa_code::TwoFACode;
use crate::domain::data_stores::TwoFACodeStore;
use crate::domain::data_stores::TwoFACodeStoreError;
use crate::domain::email::Email;
use vstd::hash_map::StringHashMap;
use vstd::prelude::*;

verus! {

/// Pending challenges kept in memory, at most one for each address.
pub struct HashmapTwoFACodeStore {
    codes: StringHashMap<(LoginAttemptId, TwoFACode)>,
}

impl View for HashmapTwoFACodeStore {
    type V = Map<Seq<char>, (Seq<char>, Seq<char>)>;

    closed spec fn view(&self) -> Map<Seq<char>, (Seq<char>, Seq<char>)> {
        Map::new(
            |k: Seq<char>| self.codes@.contains_key(k),
            |k: Seq<char>| (self.codes@[k].0@, self.codes@[k].1@),
        )
    }
}

impl HashmapTwoFACodeStore {
    /// A store without pending challenges.
    pub fn new() -> (store: HashmapTwoFACodeStore)
        ensures
            store@ == Map::<Seq<char>, (Seq<char>, Seq<char>)>::empty(),
    {
        let store = HashmapTwoFACodeStore { codes: StringHashMap::new() };
        assert(store@ =~= Map::<Seq<char>, (Seq<char>, Seq<char>)>::empty());
        store
    }
}

impl Default for HashmapTwoFACodeStore {
    fn default() -> (store: HashmapTwoFACodeStore)
        ensures
            store@ == Map::<Seq<char>, (Seq<char>, Seq<char>)>::empty(),
    {
        HashmapTwoFACodeStore::new()
    }
}

impl TwoFACodeStore for HashmapTwoFACodeStore {
    open spec fn codes(&self) -> Map<Seq<char>, (Seq<char>, Seq<char>)> {
        self@
    }

    open spec fn never_fails() -> bool {
        true
    }

    fn add_code(&mut self, email: Email, login_attempt_id: LoginAttemptId, code: TwoFACode) -> (r:
        Result<(), TwoFACodeStoreError>)
        ensures
            r is Ok,
            final(self)@ == old(self)@.insert(email@, (login_attempt_id@, code@)),
    {
        let key: String = email.as_ref().expose_secret().clone();
        self.codes.insert(key, (login_attempt_id, code));
        assert(self@ =~= old(self)@.insert(email@, (login_attempt_id@, code@)));
        Ok(())
    }

    fn remove_code(&mut self, email: &Email) -> (r: Result<(), TwoFACodeStoreError>)
        ensures
            r == remove_code_outcome(old(self)@, email@),
            final(self)@ == old(self)@.remove(email@),
    {
        let key: &str = email.as_ref().expose_secret().as_str();
        if self.codes.contains_key(key) {
            self.codes.remove(key);
            assert(self@ =~= old(self)@.remove(email@));
            Ok(())
        } else {
            assert(self@ =~= old(self)@.remove(email@));
            Err(TwoFACodeStoreError::LoginAttemptIdNotFound)
        }
    }

    fn get_code(&self, email: &Email) -> (r: Result<(LoginAttemptId, TwoFACode), TwoFACodeStoreError>)
        ensures
            code_result_view(r) == get_code_outcome(self@, email@),
    {
        match self.codes.get(email.as_ref().expose_secret().as_str()) {
            Some(pair) => Ok((pair.0.clone(), pair.1.clone())),
            None => Err(TwoFACodeStoreError::LoginAttemptIdNotFound),
        }
    }
}

} // verus!
