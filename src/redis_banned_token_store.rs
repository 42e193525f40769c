use vstd::prelude::*;

verus! {

/// The prefix that sets revoked tokens apart from other keys of a shared
/// key/value backend.
pub const BANNED_TOKEN_KEY_PREFIX: &'static str = "banned_token:";

/// The backend key under which `token` is marked revoked.
pub fn get_key(token: &str) -> (r: String)
    ensures
        r@ == BANNED_TOKEN_KEY_PREFIX@ + token@,
{
    let mut key = BANNED_TOKEN_KEY_PREFIX.to_owned();
    key.append(token);
    key
}

} // verus!
