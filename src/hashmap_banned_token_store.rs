use vstd::prelude::*;

use crate::table::StringTable;
use crate::token_store::{BannedTokenStore, BannedTokenStoreError};

verus! {

/// Revoked tokens kept in memory, which can also be taken back out.
pub struct HashMapBannedTokenStore {
    tokens: StringTable<()>,
}

impl HashMapBannedTokenStore {
    pub fn new() -> (s: Self)
        ensures
            s.valid(),
            s.banned() == Set::<Seq<char>>::empty(),
    {
        let s = HashMapBannedTokenStore { tokens: StringTable::new() };
        assert(s.banned() =~= Set::<Seq<char>>::empty());
        s
    }

    /// Takes `token` out of the store; it is an error if it was not there.
    pub fn remove_token(&mut self, token: &str) -> (r: Result<(), BannedTokenStoreError>)
        requires
            old(self).valid(),
        ensures
            final(self).valid(),
            final(self).banned() == old(self).banned().remove(token@),
            r is Ok <==> old(self).banned().contains(token@),
    {
        match self.tokens.remove(&token.to_owned()) {
            Some(_) => Ok(()),
            None => Err(BannedTokenStoreError::UnexpectedError),
        }
    }

    pub fn is_banned(&self, token: &str) -> (r: bool)
        requires
            self.valid(),
        ensures
            r == self.banned().contains(token@),
    {
        self.tokens.contains_key(&token.to_owned())
    }
}

impl Default for HashMapBannedTokenStore {
    fn default() -> (s: Self)
        ensures
            s.valid(),
            s.banned() == Set::<Seq<char>>::empty(),
    {
        HashMapBannedTokenStore::new()
    }
}

impl BannedTokenStore for HashMapBannedTokenStore {
    /// Memory does not fail.
    open spec fn reliable(&self) -> bool {
        true
    }

    closed spec fn valid(&self) -> bool {
        self.tokens.wf()
    }

    closed spec fn banned(&self) -> Set<Seq<char>> {
        self.tokens@.dom()
    }

    /// Never fails; adding a token twice is no error.
    fn add_token(&mut self, token: &str) -> (r: Result<(), BannedTokenStoreError>)
        ensures
            r is Ok,
    {
        self.tokens.insert(token.to_owned(), ());
        Ok(())
    }

    /// Never fails.
    fn contains_token(&self, token: &str) -> (r: Result<bool, BannedTokenStoreError>)
        ensures
            r is Ok,
    {
        Ok(self.is_banned(token))
    }
}

} // verus!
