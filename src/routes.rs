use vstd::prelude::*;

use crate::auth::{
    expiry_after, generate_auth_token_at, signed_token, token_claims, token_valid_at,
    validate_token_at,
};
use crate::data_stores::{
    hyphenated_uuid, is_six_digit_code, is_uuid_v7_text, LoginAttemptId, TwoFACode, TwoFACodeStore, UserStore,
    UserStoreError,
};
use crate::email::{email_syntax_ok, Email};
use crate::error::AuthAPIError;
use crate::password::{Password, MIN_PASSWORD_CHARS};
use crate::password_hash::password_hashable;
use crate::token_store::BannedTokenStore;
use crate::user::User;

verus! {

/// The pair parses as an address and a password.
pub open spec fn credentials_parse(email: Seq<char>, password: Seq<char>) -> bool {
    email_syntax_ok(email) && password.len() >= MIN_PASSWORD_CHARS
}

/// The answer to a second-factor check against the stored `challenges`:
/// malformed input, then a missing or differing challenge, are refused.
pub open spec fn two_fa_decision(
    challenges: Map<Seq<char>, (Seq<char>, Seq<char>)>,
    email: Seq<char>,
    login_attempt_id: Seq<char>,
    code: Seq<char>,
) -> Result<(), AuthAPIError> {
    if !email_syntax_ok(email) || hyphenated_uuid(login_attempt_id) is None || !is_six_digit_code(
        code,
    ) {
        Err(AuthAPIError::InvalidCredentials)
    } else if challenges.contains_key(email) && (hyphenated_uuid(login_attempt_id) matches Some(id)
        && challenges[email] == (id, code)) {
        Ok(())
    } else {
        Err(AuthAPIError::IncorrectCredentials)
    }
}

/// The answer to a token check for other services: the token must be well
/// signed, unexpired, and not revoked.
pub open spec fn verify_token_decision(
    banned: Set<Seq<char>>,
    token: Seq<char>,
    secret: Seq<char>,
    now: int,
) -> Result<(), AuthAPIError> {
    if !token_valid_at(token, secret, now) || banned.contains(token) {
        Err(AuthAPIError::InvalidToken)
    } else {
        Ok(())
    }
}

/// The body of a successful signup.
pub struct SignupResponse {
    pub message: String,
}

/// The body of a login that asks for a second factor.
pub struct TwoFactorAuthResponse {
    pub message: String,
    pub login_attempt_id: String,
}

/// The body of a successful login.
pub enum LoginResponse {
    RegularAuth,
    TwoFactorAuth(TwoFactorAuthResponse),
}

/// What a successful login hands back: a session token, or the challenge that
/// was stored and whose code is to be sent to the user.
pub enum LoginOutcome {
    RegularAuth { token: String },
    TwoFactorAuth { login_attempt_id: LoginAttemptId, code: TwoFACode },
}

impl LoginOutcome {
    /// The response body: nothing for a session, the attempt id (never the
    /// code) for a challenge.
    pub fn response(&self) -> (r: LoginResponse)
        ensures
            self is RegularAuth ==> r is RegularAuth,
            self matches LoginOutcome::TwoFactorAuth { login_attempt_id, .. } ==> r matches LoginResponse::TwoFactorAuth(b)
                && b.login_attempt_id@ == login_attempt_id@ && b.message@ == "2FA required"@,
    {
        match self {
            LoginOutcome::RegularAuth { .. } => LoginResponse::RegularAuth,
            LoginOutcome::TwoFactorAuth { login_attempt_id, .. } => LoginResponse::TwoFactorAuth(
                TwoFactorAuthResponse {
                    message: "2FA required".to_owned(),
                    login_attempt_id: login_attempt_id.as_str().to_owned(),
                },
            ),
        }
    }
}

/// Creates an account for `email`, unless the input is malformed or the
/// address is taken.
pub fn signup<U: UserStore>(users: &mut U, email: &str, password: &str, requires_2fa: bool) -> (r:
    Result<SignupResponse, AuthAPIError>)
    requires
        old(users).valid(),
    ensures
        final(users).valid(),
        final(users).reliable() == old(users).reliable(),
        !credentials_parse(email@, password@) ==> r matches Err(AuthAPIError::InvalidCredentials),
        old(users).reliable() && credentials_parse(email@, password@) && !old(
            users,
        ).accounts().contains_key(email@) && password_hashable(password@) ==> r is Ok,
        old(users).reliable() && credentials_parse(email@, password@) && old(
            users,
        ).accounts().contains_key(email@) ==> r matches Err(AuthAPIError::UserAlreadyExists),
        r is Ok ==> final(users).password_opens(email@, password@),
        credentials_parse(email@, password@) && old(users).accounts().contains_key(email@) ==> (
        r matches Err(AuthAPIError::UserAlreadyExists) || r matches Err(
            AuthAPIError::UnexpectedError,
        )),
        credentials_parse(email@, password@) && !old(users).accounts().contains_key(email@) ==> r is Ok
            || r matches Err(AuthAPIError::UnexpectedError),
        r matches Ok(resp) ==> credentials_parse(email@, password@) && !old(
            users,
        ).accounts().contains_key(email@) && final(users).accounts() == old(users).accounts().insert(
            email@,
            requires_2fa,
        ) && resp.message@ == "User created successfully!"@,
        r is Err ==> final(users).accounts() == old(users).accounts(),
{
    let email = match Email::parse(email) {
        Ok(e) => e,
        Err(_) => return Err(AuthAPIError::InvalidCredentials),
    };
    let password = match Password::parse(password) {
        Ok(p) => p,
        Err(_) => return Err(AuthAPIError::InvalidCredentials),
    };
    let user = User::new(email, password, requires_2fa);
    if users.get_user(&user.email).is_ok() {
        return Err(AuthAPIError::UserAlreadyExists);
    }
    match users.add_user(user) {
        Ok(()) => Ok(SignupResponse { message: "User created successfully!".to_owned() }),
        Err(UserStoreError::UserAlreadyExists) => Err(AuthAPIError::UserAlreadyExists),
        Err(_) => Err(AuthAPIError::UnexpectedError),
    }
}

/// Checks the credentials; then issues a session token issued at `now`, or,
/// for an account that asks for a second factor, stores a fresh challenge
/// (replacing any earlier one for the address). A store that fails while
/// checking the password counts as incorrect credentials; one that fails
/// afterwards is an unexpected error.
pub fn login<U: UserStore, C: TwoFACodeStore>(
    users: &U,
    codes: &mut C,
    email: &str,
    password: &str,
    secret: &str,
    now: i64,
) -> (r: Result<LoginOutcome, AuthAPIError>)
    requires
        users.valid(),
        old(codes).valid(),
    ensures
        final(codes).valid(),
        final(codes).reliable() == old(codes).reliable(),
        !credentials_parse(email@, password@) ==> r matches Err(AuthAPIError::InvalidCredentials),
        users.reliable() && old(codes).reliable() && credentials_parse(email@, password@)
            && users.accounts().contains_key(email@) && users.password_opens(email@, password@) && (
        users.accounts()[email@] || expiry_after(now as int) is Some) ==> r is Ok,
        users.reliable() && credentials_parse(email@, password@) && users.accounts().contains_key(
            email@,
        ) && users.password_opens(email@, password@) ==> !(r matches Err(
            AuthAPIError::IncorrectCredentials,
        )),
        credentials_parse(email@, password@) && !(users.accounts().contains_key(email@)
            && users.password_opens(email@, password@)) ==> r matches Err(
            AuthAPIError::IncorrectCredentials,
        ),
        credentials_parse(email@, password@) && users.accounts().contains_key(email@)
            && users.password_opens(email@, password@) ==> r is Ok || r matches Err(
            AuthAPIError::IncorrectCredentials,
        ) || r matches Err(AuthAPIError::UnexpectedError),
        r is Err ==> final(codes).challenges() == old(codes).challenges(),
        r matches Ok(LoginOutcome::RegularAuth { token }) ==> {
            &&& credentials_parse(email@, password@)
            &&& users.accounts().contains_key(email@)
            &&& users.password_opens(email@, password@)
            &&& !users.accounts()[email@]
            &&& expiry_after(now as int) matches Some(exp) && token@ == signed_token(
                email@,
                exp as nat,
                secret@,
            ) && token_claims(token@, secret@) == Some((email@, exp as nat))
            &&& final(codes).challenges() == old(codes).challenges()
        },
        r matches Ok(LoginOutcome::TwoFactorAuth { login_attempt_id, code }) ==> {
            &&& credentials_parse(email@, password@)
            &&& users.accounts().contains_key(email@)
            &&& users.password_opens(email@, password@)
            &&& users.accounts()[email@]
            &&& final(codes).challenges() == old(codes).challenges().insert(
                email@,
                (login_attempt_id@, code@),
            )
            &&& hyphenated_uuid(login_attempt_id@) == Some(login_attempt_id@)
            &&& is_uuid_v7_text(login_attempt_id@)
            &&& is_six_digit_code(code@)
        },
{
    let email = match Email::parse(email) {
        Ok(e) => e,
        Err(_) => return Err(AuthAPIError::InvalidCredentials),
    };
    let password = match Password::parse(password) {
        Ok(p) => p,
        Err(_) => return Err(AuthAPIError::InvalidCredentials),
    };
    if users.validate_user(&email, &password).is_err() {
        return Err(AuthAPIError::IncorrectCredentials);
    }
    let user = match users.get_user(&email) {
        Ok(u) => u,
        Err(_) => return Err(AuthAPIError::UnexpectedError),
    };
    if user.requires_2fa {
        let login_attempt_id = LoginAttemptId::default();
        let code = TwoFACode::default();
        match codes.add_code(email, login_attempt_id.clone(), code.clone()) {
            Ok(()) => Ok(LoginOutcome::TwoFactorAuth { login_attempt_id, code }),
            Err(_) => Err(AuthAPIError::UnexpectedError),
        }
    } else {
        match generate_auth_token_at(&email, secret, now) {
            Ok(token) => Ok(LoginOutcome::RegularAuth { token }),
            Err(_) => Err(AuthAPIError::UnexpectedError),
        }
    }
}

/// Answers a second-factor challenge; on a match the challenge is used up and
/// a session token issued at `now` is returned. The attempt id and the code are
/// compared together, so a refusal does not tell which one was wrong; a store
/// that fails to produce the challenge counts as incorrect credentials.
pub fn verify_2fa<C: TwoFACodeStore>(
    codes: &mut C,
    email: &str,
    login_attempt_id: &str,
    two_fa_code: &str,
    secret: &str,
    now: i64,
) -> (r: Result<String, AuthAPIError>)
    requires
        old(codes).valid(),
    ensures
        final(codes).valid(),
        final(codes).reliable() == old(codes).reliable(),
        old(codes).reliable() && two_fa_decision(
            old(codes).challenges(),
            email@,
            login_attempt_id@,
            two_fa_code@,
        ) is Ok && expiry_after(now as int) is Some ==> r is Ok,
        old(codes).reliable() && two_fa_decision(
            old(codes).challenges(),
            email@,
            login_attempt_id@,
            two_fa_code@,
        ) is Ok ==> !(r matches Err(AuthAPIError::IncorrectCredentials)),
        two_fa_decision(old(codes).challenges(), email@, login_attempt_id@, two_fa_code@) matches Err(
            e,
        ) ==> r == Err::<String, AuthAPIError>(e),
        two_fa_decision(old(codes).challenges(), email@, login_attempt_id@, two_fa_code@) is Ok ==> r is Ok
            || r matches Err(AuthAPIError::IncorrectCredentials) || r matches Err(
            AuthAPIError::UnexpectedError,
        ),
        r is Err ==> final(codes).challenges() == old(codes).challenges(),
        r matches Ok(token) ==> {
            &&& two_fa_decision(old(codes).challenges(), email@, login_attempt_id@, two_fa_code@) is Ok
            &&& final(codes).challenges() == old(codes).challenges().remove(email@)
            &&& expiry_after(now as int) matches Some(exp) && token@ == signed_token(
                email@,
                exp as nat,
                secret@,
            ) && token_claims(token@, secret@) == Some((email@, exp as nat))
        },
{
    let email = match Email::parse(email) {
        Ok(e) => e,
        Err(_) => return Err(AuthAPIError::InvalidCredentials),
    };
    let login_attempt_id = match LoginAttemptId::parse(login_attempt_id) {
        Ok(id) => id,
        Err(_) => return Err(AuthAPIError::InvalidCredentials),
    };
    let two_fa_code = match TwoFACode::parse(two_fa_code) {
        Ok(c) => c,
        Err(_) => return Err(AuthAPIError::InvalidCredentials),
    };
    let (stored_id, stored_code) = match codes.get_code(&email) {
        Ok(entry) => entry,
        Err(_) => return Err(AuthAPIError::IncorrectCredentials),
    };
    if !(stored_id == login_attempt_id && stored_code == two_fa_code) {
        return Err(AuthAPIError::IncorrectCredentials);
    }
    let token = match generate_auth_token_at(&email, secret, now) {
        Ok(t) => t,
        Err(_) => return Err(AuthAPIError::UnexpectedError),
    };
    match codes.remove_code(&email) {
        Ok(()) => Ok(token),
        Err(_) => Err(AuthAPIError::UnexpectedError),
    }
}

/// Revokes the session token taken from the cookie, if there is one and it
/// is well signed and unexpired at `now`. Revoking a revoked token again is
/// no error.
pub fn logout<B: BannedTokenStore>(banned: &mut B, token: Option<&str>, secret: &str, now: i64) -> (r:
    Result<(), AuthAPIError>)
    requires
        old(banned).valid(),
    ensures
        final(banned).valid(),
        final(banned).reliable() == old(banned).reliable(),
        old(banned).reliable() && (token matches Some(t) && token_valid_at(t@, secret@, now as int))
            ==> r is Ok,
        match token {
            None => r matches Err(AuthAPIError::MissingToken) && final(banned).banned() == old(
                banned,
            ).banned(),
            Some(t) => if !token_valid_at(t@, secret@, now as int) {
                r matches Err(AuthAPIError::InvalidToken) && final(banned).banned() == old(
                    banned,
                ).banned()
            } else {
                (r is Ok && final(banned).banned() == old(banned).banned().insert(t@)) || (
                r matches Err(AuthAPIError::UnexpectedError) && final(banned).banned() == old(
                    banned,
                ).banned())
            },
        },
{
    let token = match token {
        Some(t) => t,
        None => return Err(AuthAPIError::MissingToken),
    };
    if validate_token_at(token, secret, now).is_err() {
        return Err(AuthAPIError::InvalidToken);
    }
    match banned.add_token(token) {
        Ok(()) => Ok(()),
        Err(_) => Err(AuthAPIError::UnexpectedError),
    }
}

/// Checks a bearer token for another service: well signed, unexpired at
/// `now`, and not revoked.
pub fn verify_token<B: BannedTokenStore>(banned: &B, token: &str, secret: &str, now: i64) -> (r:
    Result<(), AuthAPIError>)
    requires
        banned.valid(),
    ensures
        banned.reliable() ==> r == verify_token_decision(banned.banned(), token@, secret@, now as int),
        r == verify_token_decision(banned.banned(), token@, secret@, now as int) || (r matches Err(
            AuthAPIError::UnexpectedError,
        ) && token_valid_at(token@, secret@, now as int)),
{
    if validate_token_at(token, secret, now).is_err() {
        return Err(AuthAPIError::InvalidToken);
    }
    match banned.contains_token(token) {
        Ok(true) => Err(AuthAPIError::InvalidToken),
        Ok(false) => Ok(()),
        Err(_) => Err(AuthAPIError::UnexpectedError),
    }
}

/// A challenge answers once: after a check that succeeded has removed it, the
/// same answer is refused as incorrect.
pub proof fn lemma_two_fa_single_use(
    challenges: Map<Seq<char>, (Seq<char>, Seq<char>)>,
    email: Seq<char>,
    login_attempt_id: Seq<char>,
    code: Seq<char>,
)
    requires
        two_fa_decision(challenges, email, login_attempt_id, code) is Ok,
    ensures
        two_fa_decision(challenges.remove(email), email, login_attempt_id, code) == Err::<
            (),
            AuthAPIError,
        >(AuthAPIError::IncorrectCredentials),
{
}

/// A revoked token is refused by the token check even while its signature and
/// expiry still hold.
pub proof fn lemma_revoked_token_refused(
    banned: Set<Seq<char>>,
    token: Seq<char>,
    secret: Seq<char>,
    now: int,
)
    requires
        token_valid_at(token, secret, now),
    ensures
        banned.insert(token).contains(token),
        verify_token_decision(banned.insert(token), token, secret, now) == Err::<(), AuthAPIError>(
            AuthAPIError::InvalidToken,
        ),
{
}

} // verus!
