use vstd::prelude::*;

use crate::table::StringTable;
use crate::token_store::{BannedTokenStore, BannedTokenStoreError};

verus! {

/// Revoked tokens kept in memory. Entries do not expire.
pub struct HashSetBannedTokenStore {
    tokens: StringTable<()>,
}

impl HashSetBannedTokenStore {
    pub fn new() -> (s: Self)
        ensures
            s.valid(),
            s.banned() == Set::<Seq<char>>::empty(),
    {
        let s = HashSetBannedTokenStore { tokens: StringTable::new() };
        assert(s.banned() =~= Set::<Seq<char>>::empty());
        s
    }
}

impl Default for HashSetBannedTokenStore {
    fn default() -> (s: Self)
        ensures
            s.valid(),
            s.banned() == Set::<Seq<char>>::empty(),
    {
        HashSetBannedTokenStore::new()
    }
}

impl BannedTokenStore for HashSetBannedTokenStore {
    /// Memory does not fail.
    open spec fn reliable(&self) -> bool {
        true
    }

    closed spec fn valid(&self) -> bool {
        self.tokens.wf()
    }

    closed spec fn banned(&self) -> Set<Seq<char>> {
        self.tokens@.dom()
    }

    /// Never fails; adding a token twice is no error.
    fn add_token(&mut self, token: &str) -> (r: Result<(), BannedTokenStoreError>)
        ensures
            r is Ok,
    {
        self.tokens.insert(token.to_owned(), ());
        Ok(())
    }

    /// Never fails.
    fn contains_token(&self, token: &str) -> (r: Result<bool, BannedTokenStoreError>)
        ensures
            r is Ok,
    {
        Ok(self.tokens.contains_key(&token.to_owned()))
    }
}

} // verus!
