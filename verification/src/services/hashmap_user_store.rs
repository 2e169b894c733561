//! User records in a hash map.

use crate::domain::data_stores::add_user_outcome;
use crate::domain::data_stores::get_user_outcome;
use crate::domain::data_stores::user_result_view;
use crate::domain::data_stores::users_after_add;
use crate::domain::data_stores::validate_user_outcome;
use crate::domain::data_stores::UserStore;
use crate::domain::data_stores::UserStoreError;
use crate::domain::email::Email;
use crate::domain::password::Password;
use crate::domain::user::User;
use crate::domain::user::UserView;
use vstd::hash_map::StringHashMap;
use vstd::prelude::*;

verus! {

/// User records kept in memory, each under its own address.
pub struct HashmapUserStore {
    users: StringHashMap<User>,
}

impl View for HashmapUserStore {
    type V = Map<Seq<char>, UserView>;

    closed spec fn view(&self) -> Map<Seq<char>, UserView> {
        Map::new(|k: Seq<char>| self.users@.contains_key(k), |k: Seq<char>| self.users@[k]@)
    }
}

impl HashmapUserStore {
    /// A store without records.
    pub fn new() -> (store: HashmapUserStore)
        ensures
            store@ == Map::<Seq<char>, UserView>::empty(),
    {
        let store = HashmapUserStore { users: StringHashMap::new() };
        assert(store@ =~= Map::<Seq<char>, UserView>::empty());
        store
    }
}

impl Default for HashmapUserStore {
    fn default() -> (store: HashmapUserStore)
        ensures
            store@ == Map::<Seq<char>, UserView>::empty(),
    {
        HashmapUserStore::new()
    }
}

impl UserStore for HashmapUserStore {
    open spec fn users(&self) -> Map<Seq<char>, UserView> {
        self@
    }

    open spec fn never_fails() -> bool {
        true
    }

    fn add_user(&mut self, user: User) -> (r: Result<(), UserStoreError>)
        ensures
            r == add_user_outcome(old(self)@, user@),
            final(self)@ == users_after_add(old(self)@, user@),
    {
        let key: String = user.get_email().as_ref().expose_secret().clone();
        if self.users.contains_key(key.as_str()) {
            Err(UserStoreError::UserAlreadyExists)
        } else {
            self.users.insert(key, user);
            assert(self@ =~= old(self)@.insert(user@.email, user@));
            Ok(())
        }
    }

    fn get_user(&self, email: &Email) -> (r: Result<User, UserStoreError>)
        ensures
            user_result_view(r) == get_user_outcome(self@, email@),
    {
        match self.users.get(email.as_ref().expose_secret().as_str()) {
            Some(user) => Ok(user.clone()),
            None => Err(UserStoreError::UserNotFound),
        }
    }

    fn validate_user(&self, email: &Email, password: &Password) -> (r: Result<(), UserStoreError>)
        ensures
            r == validate_user_outcome(self@, email@, password@),
    {
        match self.users.get(email.as_ref().expose_secret().as_str()) {
            Some(user) => {
                if user.get_password() == password {
                    Ok(())
                } else {
                    Err(UserStoreError::InvalidCredentials)
                }
            },
            None => Err(UserStoreError::UserNotFound),
        }
    }
}

} // verus!
