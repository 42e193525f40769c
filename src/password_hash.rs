use argon2::password_hash::SaltString;
use argon2::{Algorithm, Argon2, Params, PasswordHash, PasswordHasher, PasswordVerifier, Version};
use vstd::prelude::*;

use crate::data_stores::UserStoreError;
use crate::password::Password;

verus! {

/// Argon2id memory cost, in KiB (about 15 MiB).
pub const HASH_MEMORY_KIB: u32 = 15000;

/// Argon2id passes over memory.
pub const HASH_ITERATIONS: u32 = 2;

/// Argon2id lanes.
pub const HASH_LANES: u32 = 1;

/// Whether `argon2::PasswordHash::new` reads `hash` as a PHC string and
/// `Argon2::default().verify_password` accepts `password` against it.
pub uninterp spec fn argon2_verifies(hash: Seq<char>, password: Seq<char>) -> bool;

/// Relies on `argon2::PasswordHash::new` and `PasswordVerifier::verify_password`
/// of `Argon2::default()`, which takes the algorithm and costs from the hash:
/// the verdict depends on the two strings.
#[verifier::external_body]
fn argon2_verify(hash: &str, password: &str) -> (r: bool)
    ensures
        r == argon2_verifies(hash@, password@),
{
    match PasswordHash::new(hash) {
        Ok(parsed) => Argon2::default().verify_password(password.as_bytes(), &parsed).is_ok(),
        Err(_) => false,
    }
}

/// The costs that `argon2::Params::new` accepts (no output length given).
pub open spec fn argon2_costs_accepted(memory_kib: u32, iterations: u32, lanes: u32) -> bool {
    &&& memory_kib >= 8
    &&& memory_kib >= 8 * lanes
    &&& iterations >= 1
    &&& 1 <= lanes <= 0xFF_FFFF
}

/// Argon2 takes passwords of at most `2^32 - 1` bytes (UTF-8).
pub open spec fn password_hashable(password: Seq<char>) -> bool {
    vstd::utf8::encode_utf8(password).len() <= 0xFFFF_FFFF
}

/// Relies on `argon2::Argon2::new` (Argon2id, version 0x13, `Params::new` with
/// the given costs), `PasswordHasher::hash_password` and
/// `SaltString::generate` over the thread-local generator: a PHC string with a
/// fresh 16-byte salt. `Params::new` refuses only the costs outside
/// `argon2_costs_accepted`, and hashing refuses only passwords over
/// `2^32 - 1` bytes. `PasswordVerifier::verify_password` re-hashes with the
/// algorithm, costs and salt the string records, so the password it was made
/// from verifies against it.
#[verifier::external_body]
fn argon2_hash(password: &str, memory_kib: u32, iterations: u32, lanes: u32) -> (r: Option<String>)
    requires
        lanes <= 0xFF_FFFF,
    ensures
        argon2_costs_accepted(memory_kib, iterations, lanes) && password_hashable(password@) ==> r is Some,
        r matches Some(h) ==> argon2_verifies(h@, password@),
{
    let salt = SaltString::generate(&mut rand::thread_rng());
    let params = Params::new(memory_kib, iterations, lanes, None).ok()?;
    let hasher = Argon2::new(Algorithm::Argon2id, Version::V0x13, params);
    hasher.hash_password(password.as_bytes(), &salt).ok().map(|h| h.to_string())
}

/// A salted Argon2id hash of `password`, to be stored in its place.
pub fn compute_password_hash(password: &Password) -> (r: Result<String, UserStoreError>)
    ensures
        password_hashable(password@) ==> r is Ok,
        r matches Ok(h) ==> argon2_verifies(h@, password@),
        r matches Err(e) ==> e == UserStoreError::UnexpectedError,
{
    match argon2_hash(password.as_str(), HASH_MEMORY_KIB, HASH_ITERATIONS, HASH_LANES) {
        Some(h) => Ok(h),
        None => Err(UserStoreError::UnexpectedError),
    }
}

/// Checks `candidate` against a stored hash; a malformed hash fails closed.
pub fn verify_password_hash(expected_password_hash: &str, candidate: &Password) -> (r: Result<
    (),
    UserStoreError,
>)
    ensures
        r is Ok <==> argon2_verifies(expected_password_hash@, candidate@),
        r matches Err(e) ==> e == UserStoreError::InvalidCredentials,
{
    if argon2_verify(expected_password_hash, candidate.as_str()) {
        Ok(())
    } else {
        Err(UserStoreError::InvalidCredentials)
    }
}

} // verus!
