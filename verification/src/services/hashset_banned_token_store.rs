//! Revoked session tokens in a hash set.

use crate::domain::data_stores::BannedTokenStore;
use crate::domain::data_stores::BannedTokenStoreError;
use vstd::hash_set::StringHashSet;
use vstd::prelude::*;

verus! {

/// The denylist kept in memory.
pub struct HashsetBannedTokenStore {
    tokens: StringHashSet,
}

impl View for HashsetBannedTokenStore {
    type V = Set<Seq<char>>;

    closed spec fn view(&self) -> Set<Seq<char>> {
        self.tokens@
    }
}

impl HashsetBannedTokenStore {
    /// A denylist without tokens.
    pub fn new() -> (store: HashsetBannedTokenStore)
        ensures
            store@ == Set::<Seq<char>>::empty(),
    {
        HashsetBannedTokenStore { tokens: StringHashSet::new() }
    }
}

impl Default for HashsetBannedTokenStore {
    fn default() -> (store: HashsetBannedTokenStore)
        ensures
            store@ == Set::<Seq<char>>::empty(),
    {
        HashsetBannedTokenStore::new()
    }
}

impl BannedTokenStore for HashsetBannedTokenStore {
    open spec fn tokens(&self) -> Set<Seq<char>> {
        self@
    }

    open spec fn never_fails() -> bool {
        true
    }

    fn add_token(&mut self, token: String) -> (r: Result<(), BannedTokenStoreError>)
        ensures
            r is Ok,
            final(self)@ == old(self)@.insert(token@),
    {
        let _ = self.tokens.insert(token);
        Ok(())
    }

    fn contains_token(&self, token: String) -> (r: Result<bool, BannedTokenStoreError>)
        ensures
            r == Ok::<bool, BannedTokenStoreError>(self@.contains(token@)),
    {
        Ok(self.tokens.contains(token.as_str()))
    }
}

} // verus!
