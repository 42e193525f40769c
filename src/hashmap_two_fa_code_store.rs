use vstd::prelude::*;

use crate::data_stores::{LoginAttemptId, TwoFACode, TwoFACodeStore, TwoFACodeStoreError};
use crate::email::Email;
use crate::table::StringTable;

verus! {

/// Second-factor challenges kept in memory, by address. Entries do not expire:
/// they go when verified or replaced.
pub struct HashmapTwoFACodeStore {
    codes: StringTable<(LoginAttemptId, TwoFACode)>,
}

impl HashmapTwoFACodeStore {
    pub fn new() -> (s: Self)
        ensures
            s.valid(),
            s.challenges() == Map::<Seq<char>, (Seq<char>, Seq<char>)>::empty(),
    {
        let s = HashmapTwoFACodeStore { codes: StringTable::new() };
        assert(s.challenges() =~= Map::<Seq<char>, (Seq<char>, Seq<char>)>::empty());
        s
    }
}

impl Default for HashmapTwoFACodeStore {
    fn default() -> (s: Self)
        ensures
            s.valid(),
            s.challenges() == Map::<Seq<char>, (Seq<char>, Seq<char>)>::empty(),
    {
        HashmapTwoFACodeStore::new()
    }
}

impl TwoFACodeStore for HashmapTwoFACodeStore {
    /// Memory does not fail.
    open spec fn reliable(&self) -> bool {
        true
    }

    closed spec fn valid(&self) -> bool {
        self.codes.wf()
    }

    closed spec fn challenges(&self) -> Map<Seq<char>, (Seq<char>, Seq<char>)> {
        Map::new(
            |k: Seq<char>| self.codes@.contains_key(k),
            |k: Seq<char>| (self.codes@[k].0@, self.codes@[k].1@),
        )
    }

    /// Never fails.
    fn add_code(&mut self, email: Email, login_attempt_id: LoginAttemptId, code: TwoFACode) -> (r:
        Result<(), TwoFACodeStoreError>)
        ensures
            r is Ok,
    {
        let ghost before = self.challenges();
        let ghost entry = (login_attempt_id@, code@);
        self.codes.insert(email.to_string(), (login_attempt_id, code));
        assert(self.challenges() =~= before.insert(email@, entry));
        Ok(())
    }

    /// Never fails, whether or not a challenge was there.
    fn remove_code(&mut self, email: &Email) -> (r: Result<(), TwoFACodeStoreError>)
        ensures
            r is Ok,
    {
        let ghost before = self.challenges();
        let _ = self.codes.remove(&email.to_string());
        assert(self.challenges() =~= before.remove(email@));
        Ok(())
    }

    /// Fails only when no challenge is stored for `email`.
    fn get_code(&self, email: &Email) -> (r: Result<(LoginAttemptId, TwoFACode), TwoFACodeStoreError>)
        ensures
            r is Ok <==> self.challenges().contains_key(email@),
    {
        match self.codes.get(&email.to_string()) {
            Some(entry) => Ok((entry.0.clone(), entry.1.clone())),
            None => Err(TwoFACodeStoreError::LoginAttemptIdNotFound),
        }
    }
}

} // verus!
