use jsonwebtoken::{decode, encode, DecodingKey, EncodingKey, Header, Validation};
use vstd::prelude::*;

use crate::email::Email;
use crate::error::AuthAPIError;

verus! {

/// How long a session token stays valid, in seconds.
pub const TOKEN_TTL_SECONDS: i64 = 600;

/// The name of the cookie that carries the session token.
pub const JWT_COOKIE_NAME: &'static str = "jwt";

#[verifier::external_type_specification]
#[verifier::external_body]
pub struct ExJwtError(jsonwebtoken::errors::Error);

/// The compact token that `jsonwebtoken::encode` makes with the default header
/// (HS256) for the claims `{"sub": sub, "exp": exp}`, signed with `secret`.
pub uninterp spec fn signed_token(sub: Seq<char>, exp: nat, secret: Seq<char>) -> Seq<char>;

/// What `jsonwebtoken::decode` reads from `token` under an HS256 key made from
/// `secret`, the expiry not compared with any clock: the subject and expiry
/// claims, or `None` where the token is malformed, its signature does not check
/// out, or those claims are missing.
pub uninterp spec fn token_claims(token: Seq<char>, secret: Seq<char>) -> Option<(Seq<char>, nat)>;

/// Relies on `jsonwebtoken::encode` with `Header::default()` and
/// `EncodingKey::from_secret`: the token depends on the claims and the secret.
/// An HMAC key matches the HS256 header and the claims object always
/// serialises, so encoding does not fail; `decode` under the same secret
/// checks the signature, finds `exp`, and gives the claims back.
#[verifier::external_body]
fn create_token(claims: &Claims, secret: &str) -> (r: Result<String, jsonwebtoken::errors::Error>)
    ensures
        r is Ok,
        r matches Ok(t) ==> t@ == signed_token(claims.sub@, claims.exp as nat, secret@),
        r matches Ok(t) ==> token_claims(t@, secret@) == Some((claims.sub@, claims.exp as nat)),
{
    let mut body = serde_json::Map::new();
    body.insert("sub".to_owned(), serde_json::Value::from(claims.sub.clone()));
    body.insert("exp".to_owned(), serde_json::Value::from(claims.exp));
    encode(&Header::default(), &body, &EncodingKey::from_secret(secret.as_bytes()))
}

/// Relies on `jsonwebtoken::decode` with `DecodingKey::from_secret` and the
/// default HS256 `Validation`, its clock check switched off: the outcome
/// depends on the token and the secret.
#[verifier::external_body]
fn decode_claims(token: &str, secret: &str) -> (r: Option<(String, u64)>)
    ensures
        match r {
            Some((sub, exp)) => token_claims(token@, secret@) == Some((sub@, exp as nat)),
            None => token_claims(token@, secret@) is None,
        },
{
    let mut validation = Validation::default();
    validation.validate_exp = false;
    let key = DecodingKey::from_secret(secret.as_bytes());
    let data = decode::<serde_json::Value>(token, &key, &validation).ok()?;
    let sub = data.claims.get("sub")?.as_str()?.to_owned();
    let exp = data.claims.get("exp")?.as_u64()?;
    Some((sub, exp))
}

/// Relies on `chrono::Utc::now` and `DateTime::timestamp`: seconds since the
/// Unix epoch, whatever the clock says.
#[verifier::external_body]
fn now_timestamp() -> (r: i64) {
    chrono::Utc::now().timestamp()
}

/// The claims a session token carries: its subject's address and its expiry
/// in seconds since the Unix epoch.
pub struct Claims {
    pub sub: String,
    pub exp: usize,
}

/// Why a token could not be made.
#[derive(Debug)]
pub enum GenerateTokenError {
    TokenError(jsonwebtoken::errors::Error),
    UnexpectedError,
}

/// The expiry of a token issued at `now`, where it is a timestamp that fits
/// both an `i64` and a `usize`.
pub open spec fn expiry_after(now: int) -> Option<usize> {
    let exp = now + TOKEN_TTL_SECONDS;
    if 0 <= exp <= i64::MAX && exp <= usize::MAX {
        Some(exp as usize)
    } else {
        None
    }
}

/// Some expiry makes `token` the signed token for `sub`.
pub open spec fn issued_for(token: Seq<char>, sub: Seq<char>, secret: Seq<char>) -> bool {
    exists|exp: nat| token == #[trigger] signed_token(sub, exp, secret)
}

/// `token` is well signed with `secret` and has not expired at `now`.
pub open spec fn token_valid_at(token: Seq<char>, secret: Seq<char>, now: int) -> bool {
    match token_claims(token, secret) {
        Some((_, exp)) => now <= exp <= usize::MAX,
        None => false,
    }
}

/// The expiry of a token issued at `now`: `TOKEN_TTL_SECONDS` later.
pub fn token_expiry(now: i64) -> (r: Option<usize>)
    ensures
        r == expiry_after(now as int),
{
    if now > i64::MAX - TOKEN_TTL_SECONDS {
        return None;
    }
    let exp = now + TOKEN_TTL_SECONDS;
    if exp < 0 {
        return None;
    }
    if exp as u64 > usize::MAX as u64 {
        return None;
    }
    Some(exp as usize)
}

/// A session token for `email`, issued at `now`.
pub fn generate_auth_token_at(email: &Email, secret: &str, now: i64) -> (r: Result<
    String,
    GenerateTokenError,
>)
    ensures
        r is Ok <==> expiry_after(now as int) is Some,
        r matches Ok(t) ==> expiry_after(now as int) matches Some(exp) && t@ == signed_token(
            email@,
            exp as nat,
            secret@,
        ) && token_claims(t@, secret@) == Some((email@, exp as nat)),
        expiry_after(now as int) is None <==> r matches Err(GenerateTokenError::UnexpectedError),
{
    let exp = match token_expiry(now) {
        Some(exp) => exp,
        None => return Err(GenerateTokenError::UnexpectedError),
    };
    let claims = Claims { sub: email.to_string(), exp };
    match create_token(&claims, secret) {
        Ok(t) => Ok(t),
        Err(e) => Err(GenerateTokenError::TokenError(e)),
    }
}

/// A session token for `email`, issued now.
pub fn generate_auth_token(email: &Email, secret: &str) -> (r: Result<String, GenerateTokenError>)
    ensures
        r matches Ok(t) ==> issued_for(t@, email@, secret@) && (token_claims(t@, secret@) matches Some(
            (sub, _),
        ) && sub == email@),
{
    generate_auth_token_at(email, secret, now_timestamp())
}

/// The claims of `token` if it is well signed with `secret` and has not
/// expired at `now`. Revocation is not consulted here.
pub fn validate_token_at(token: &str, secret: &str, now: i64) -> (r: Result<Claims, AuthAPIError>)
    ensures
        r is Ok <==> token_valid_at(token@, secret@, now as int),
        r matches Ok(c) ==> token_claims(token@, secret@) == Some((c.sub@, c.exp as nat)),
        r matches Err(e) ==> e == AuthAPIError::InvalidToken,
{
    match decode_claims(token, secret) {
        Some((sub, exp)) => {
            if (exp as i128) < (now as i128) || exp as u128 > usize::MAX as u128 {
                Err(AuthAPIError::InvalidToken)
            } else {
                Ok(Claims { sub, exp: exp as usize })
            }
        },
        None => Err(AuthAPIError::InvalidToken),
    }
}

/// The claims of `token` if it is well signed with `secret` and has not
/// expired now.
pub fn validate_token(token: &str, secret: &str) -> (r: Result<Claims, AuthAPIError>)
    ensures
        r matches Ok(c) ==> token_claims(token@, secret@) == Some((c.sub@, c.exp as nat)),
        r matches Err(e) ==> e == AuthAPIError::InvalidToken,
{
    validate_token_at(token, secret, now_timestamp())
}

} // verus!
