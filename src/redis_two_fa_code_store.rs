use vstd::prelude::*;

use crate::data_stores::{
    hyphenated_uuid, is_six_digit_code, LoginAttemptId, TwoFACode, TwoFACodeStoreError,
};
use crate::email::Email;

verus! {

/// How long a stored challenge lives, in seconds.
pub const TEN_MINUTES_IN_SECONDS: u64 = 600;

/// The prefix that sets challenges apart from other keys of a shared
/// key/value backend.
pub const TWO_FA_CODE_PREFIX: &'static str = "two_fa_code:";

#[verifier::external_type_specification]
#[verifier::external_body]
pub struct ExJsonError(serde_json::Error);

/// The JSON text that `serde_json::to_string` writes for the pair of strings
/// `(first, second)`.
pub uninterp spec fn json_pair_text(first: Seq<char>, second: Seq<char>) -> Seq<char>;

/// The pair of strings that `serde_json::from_str` reads from `s`, if any.
pub uninterp spec fn json_pair_read(s: Seq<char>) -> Option<(Seq<char>, Seq<char>)>;

/// Relies on `serde_json::to_string` for a `(&str, &str)`: the text depends on
/// the two strings, and writing two strings into a `Vec` does not fail.
#[verifier::external_body]
fn pair_to_json(first: &str, second: &str) -> (r: Result<String, serde_json::Error>)
    ensures
        r is Ok,
        r matches Ok(t) ==> t@ == json_pair_text(first@, second@),
{
    serde_json::to_string(&(first, second))
}

/// Relies on `serde_json::from_str` for a `(String, String)`: the outcome
/// depends on the text.
#[verifier::external_body]
fn pair_from_json(s: &str) -> (r: Result<(String, String), serde_json::Error>)
    ensures
        match r {
            Ok((first, second)) => json_pair_read(s@) == Some((first@, second@)),
            Err(_) => json_pair_read(s@) is None,
        },
{
    serde_json::from_str::<(String, String)>(s)
}

/// The backend key under which the challenge for `email` is stored.
pub fn get_key(email: &Email) -> (r: String)
    ensures
        r@ == TWO_FA_CODE_PREFIX@ + email@,
{
    let mut key = TWO_FA_CODE_PREFIX.to_owned();
    key.append(email.as_str());
    key
}

/// The stored form of a challenge: the JSON pair (attempt id, code).
pub fn encode_two_fa_entry(login_attempt_id: &LoginAttemptId, code: &TwoFACode) -> (r: Result<
    String,
    TwoFACodeStoreError,
>)
    ensures
        r matches Ok(t) && t@ == json_pair_text(login_attempt_id@, code@),
{
    match pair_to_json(login_attempt_id.as_str(), code.as_str()) {
        Ok(t) => Ok(t),
        Err(_) => Err(TwoFACodeStoreError::UnexpectedError),
    }
}

/// Reads back a challenge from what the backend holds under its key: nothing
/// there is `LoginAttemptIdNotFound`; text that is not a JSON pair of an
/// attempt id and a code is `UnexpectedError`.
pub fn decode_two_fa_entry(stored: Option<&str>) -> (r: Result<
    (LoginAttemptId, TwoFACode),
    TwoFACodeStoreError,
>)
    ensures
        match stored {
            None => r == Err::<(LoginAttemptId, TwoFACode), TwoFACodeStoreError>(
                TwoFACodeStoreError::LoginAttemptIdNotFound,
            ),
            Some(s) => match json_pair_read(s@) {
                Some((id, code)) => if hyphenated_uuid(id) is Some && is_six_digit_code(code) {
                    r matches Ok((i, c)) && hyphenated_uuid(id) == Some(i@) && c@ == code
                } else {
                    r == Err::<(LoginAttemptId, TwoFACode), TwoFACodeStoreError>(
                        TwoFACodeStoreError::UnexpectedError,
                    )
                },
                None => r == Err::<(LoginAttemptId, TwoFACode), TwoFACodeStoreError>(
                    TwoFACodeStoreError::UnexpectedError,
                ),
            },
        },
{
    let text = match stored {
        Some(s) => s,
        None => return Err(TwoFACodeStoreError::LoginAttemptIdNotFound),
    };
    let (id, code) = match pair_from_json(text) {
        Ok(pair) => pair,
        Err(_) => return Err(TwoFACodeStoreError::UnexpectedError),
    };
    let login_attempt_id = match LoginAttemptId::parse(id.as_str()) {
        Ok(i) => i,
        Err(_) => return Err(TwoFACodeStoreError::UnexpectedError),
    };
    let code = match TwoFACode::parse(code.as_str()) {
        Ok(c) => c,
        Err(_) => return Err(TwoFACodeStoreError::UnexpectedError),
    };
    Ok((login_attempt_id, code))
}

} // verus!
