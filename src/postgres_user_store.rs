use vstd::prelude::*;

use crate::data_stores::UserStoreError;
use crate::email::{email_syntax_ok, Email};
use crate::password::{Password, MIN_PASSWORD_CHARS};
use crate::password_hash::{argon2_verifies, verify_password_hash};
use crate::user::User;

verus! {

/// The answer to a credentials check, given the hash stored for the address
/// (`None`: no such account).
pub fn validate_stored_credentials(stored_hash: Option<&str>, candidate: &Password) -> (r: Result<
    (),
    UserStoreError,
>)
    ensures
        match stored_hash {
            None => r == Err::<(), UserStoreError>(UserStoreError::UserNotFound),
            Some(h) => if argon2_verifies(h@, candidate@) {
                r is Ok
            } else {
                r == Err::<(), UserStoreError>(UserStoreError::InvalidCredentials)
            },
        },
{
    match stored_hash {
        Some(h) => verify_password_hash(h, candidate),
        None => Err(UserStoreError::UserNotFound),
    }
}

/// The outcome of a conditional insert: no row written means the address was
/// taken.
pub fn insert_outcome(rows_affected: u64) -> (r: Result<(), UserStoreError>)
    ensures
        r is Ok <==> rows_affected > 0,
        r matches Err(e) ==> e == UserStoreError::UserAlreadyExists,
{
    if rows_affected == 0 {
        Err(UserStoreError::UserAlreadyExists)
    } else {
        Ok(())
    }
}

/// An account rebuilt from a stored row; a row that does not parse is an
/// unexpected error.
pub fn user_from_row(email: &str, password_hash: &str, requires_2fa: bool) -> (r: Result<
    User,
    UserStoreError,
>)
    ensures
        r is Ok <==> email_syntax_ok(email@) && password_hash@.len() >= MIN_PASSWORD_CHARS,
        r matches Ok(u) ==> u.email@ == email@ && u.password@ == password_hash@ && u.requires_2fa
            == requires_2fa,
        r matches Err(e) ==> e == UserStoreError::UnexpectedError,
{
    let email = match Email::parse(email) {
        Ok(e) => e,
        Err(_) => return Err(UserStoreError::UnexpectedError),
    };
    let password = match Password::parse(password_hash) {
        Ok(p) => p,
        Err(_) => return Err(UserStoreError::UnexpectedError),
    };
    Ok(User::new(email, password, requires_2fa))
}

} // verus!
