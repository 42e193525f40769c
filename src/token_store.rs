use vstd::prelude::*;

verus! {

/// Failures of a revocation store.
#[derive(Debug, Clone, Copy, PartialEq, Eq, Structural)]
pub enum BannedTokenStoreError {
    UnexpectedError,
}

/// Where revoked session tokens are kept. `UnexpectedError` stands for a
/// failing backend and leaves the contents as they were. A backend that keeps
/// no model of itself leaves the spec functions at their defaults, of which
/// nothing is known.
pub trait BannedTokenStore {
    /// The store's own well-formedness, kept by every operation.
    closed spec fn valid(&self) -> bool {
        arbitrary()
    }

    /// Whether the store never fails: an in-memory store is reliable, a
    /// backend reached over the network may not be.
    closed spec fn reliable(&self) -> bool {
        arbitrary()
    }

    closed spec fn banned(&self) -> Set<Seq<char>> {
        arbitrary()
    }

    fn add_token(&mut self, token: &str) -> (r: Result<(), BannedTokenStoreError>)
        requires
            old(self).valid(),
        ensures
            final(self).valid(),
            final(self).reliable() == old(self).reliable(),
            old(self).reliable() ==> r is Ok,
            match r {
                Ok(()) => final(self).banned() == old(self).banned().insert(token@),
                Err(_) => final(self).banned() == old(self).banned(),
            },
    ;

    fn contains_token(&self, token: &str) -> (r: Result<bool, BannedTokenStoreError>)
        requires
            self.valid(),
        ensures
            self.reliable() ==> r is Ok,
            r matches Ok(b) ==> b == self.banned().contains(token@),
    ;
}

} // verus!
