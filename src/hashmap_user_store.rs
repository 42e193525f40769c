use vstd::prelude::*;

use crate::data_stores::{UserStore, UserStoreError};
use crate::email::Email;
use crate::password::Password;
use crate::password_hash::{argon2_verifies, compute_password_hash, verify_password_hash};
use crate::table::StringTable;
use crate::user::User;

verus! {

/// Accounts kept in memory, by address. Each holds an Argon2id hash of its
/// password in place of the password itself.
pub struct HashmapUserStore {
    users: StringTable<User>,
}

impl HashmapUserStore {
    /// The stored accounts, by address, each with its password hash.
    pub closed spec fn stored(&self) -> Map<Seq<char>, User> {
        self.users@
    }

    pub fn new() -> (s: Self)
        ensures
            s.valid(),
            s.accounts() == Map::<Seq<char>, bool>::empty(),
    {
        let s = HashmapUserStore { users: StringTable::new() };
        assert(s.accounts() =~= Map::<Seq<char>, bool>::empty());
        s
    }
}

impl Default for HashmapUserStore {
    fn default() -> (s: Self)
        ensures
            s.valid(),
            s.accounts() == Map::<Seq<char>, bool>::empty(),
    {
        HashmapUserStore::new()
    }
}

impl UserStore for HashmapUserStore {
    /// Memory does not fail.
    open spec fn reliable(&self) -> bool {
        true
    }

    closed spec fn valid(&self) -> bool {
        self.users.wf()
    }

    open spec fn accounts(&self) -> Map<Seq<char>, bool> {
        Map::new(
            |k: Seq<char>| self.stored().contains_key(k),
            |k: Seq<char>| self.stored()[k].requires_2fa,
        )
    }

    open spec fn password_opens(&self, email: Seq<char>, password: Seq<char>) -> bool {
        self.stored().contains_key(email) && argon2_verifies(self.stored()[email].password@, password)
    }

    /// Adds `user`, its password hashed, unless its address is taken; fails
    /// otherwise only where hashing fails (a password over `2^32 - 1` bytes).
    fn add_user(&mut self, user: User) -> (r: Result<(), UserStoreError>)
        ensures
            r matches Err(UserStoreError::UserAlreadyExists) <==> old(self).accounts().contains_key(
                user.email@,
            ),
    {
        let key = user.email.to_string();
        if self.users.contains_key(&key) {
            return Err(UserStoreError::UserAlreadyExists);
        }
        let hash = match compute_password_hash(&user.password) {
            Ok(h) => h,
            Err(_) => return Err(UserStoreError::UnexpectedError),
        };
        let hashed = Password::from_stored(hash);
        let ghost before = self.accounts();
        let ghost e = user.email@;
        let ghost b = user.requires_2fa;
        self.users.insert(key, User::new(user.email, hashed, user.requires_2fa));
        assert(self.accounts() =~= before.insert(e, b));
        Ok(())
    }

    /// Finds the account for `email`, its password field holding the stored
    /// hash; fails only when there is none.
    fn get_user(&self, email: &Email) -> (r: Result<User, UserStoreError>)
        ensures
            r is Ok <==> self.accounts().contains_key(email@),
            r matches Ok(u) ==> u.password@ == self.stored()[email@].password@,
    {
        match self.users.get(&email.to_string()) {
            Some(user) => Ok(User::new(email.clone(), user.password.clone(), user.requires_2fa)),
            None => Err(UserStoreError::UserNotFound),
        }
    }

    /// Checks `password` against the stored hash; a malformed hash fails
    /// closed. Never fails unexpectedly.
    fn validate_user(&self, email: &Email, password: &Password) -> (r: Result<(), UserStoreError>)
        ensures
            r != Err::<(), UserStoreError>(UserStoreError::UnexpectedError),
    {
        match self.users.get(&email.to_string()) {
            Some(user) => verify_password_hash(user.password.as_str(), password),
            None => Err(UserStoreError::UserNotFound),
        }
    }
}

} // verus!
