use rand::Rng;
use uuid::Uuid;
use vstd::prelude::*;

use crate::email::Email;
use crate::error::ParseError;
use crate::password::Password;
use crate::password_hash::password_hashable;
use crate::user::User;

verus! {

/// The lower-case hyphenated text of the UUID that `uuid::Uuid::parse_str`
/// reads from `s`, or `None` where it reads none.
pub uninterp spec fn hyphenated_uuid(s: Seq<char>) -> Option<Seq<char>>;

/// Relies on `uuid::Uuid::parse_str` and `Uuid`'s `Display` (the hyphenated
/// lower-case form): both depend on the text alone.
#[verifier::external_body]
fn parse_uuid(s: &str) -> (r: Option<String>)
    ensures
        match r {
            Some(t) => hyphenated_uuid(s@) == Some(t@),
            None => hyphenated_uuid(s@) is None,
        },
{
    Uuid::parse_str(s).ok().map(|u| u.to_string())
}

/// The 36-character hyphenated text of a version-7 UUID: its version digit
/// (index 14) is `7`.
pub open spec fn is_uuid_v7_text(s: Seq<char>) -> bool {
    s.len() == 36 && s[14] == '7'
}

/// Relies on `uuid::Uuid::now_v7` and `Uuid`'s `Display`: the text is the
/// hyphenated form of a version-7 UUID, which `parse_str` reads back as the
/// same UUID.
#[verifier::external_body]
fn fresh_uuid_v7() -> (r: String)
    ensures
        hyphenated_uuid(r@) == Some(r@),
        is_uuid_v7_text(r@),
{
    Uuid::now_v7().to_string()
}

/// Relies on `rand::Rng::gen_range` over `0..=9` with the thread-local
/// generator: the result lies in the range.
#[verifier::external_body]
fn random_decimal_digit() -> (d: u8)
    ensures
        d <= 9,
{
    rand::thread_rng().gen_range(0..=9u8)
}

/// The identifier of one login attempt that asked for a second factor.
pub struct LoginAttemptId {
    value: String,
}

impl View for LoginAttemptId {
    type V = Seq<char>;

    closed spec fn view(&self) -> Seq<char> {
        self.value@
    }
}

impl LoginAttemptId {
    /// Accepts what reads as a UUID, kept in its hyphenated lower-case form.
    pub fn parse(id: &str) -> (r: Result<LoginAttemptId, ParseError>)
        ensures
            r is Ok <==> hyphenated_uuid(id@) is Some,
            r matches Ok(a) ==> hyphenated_uuid(id@) == Some(a@),
            r matches Err(k) ==> k == ParseError::LoginAttemptId,
    {
        match parse_uuid(id) {
            Some(t) => Ok(LoginAttemptId { value: t }),
            None => Err(ParseError::LoginAttemptId),
        }
    }

    pub fn as_str(&self) -> (r: &str)
        ensures
            r@ == self@,
    {
        self.value.as_str()
    }
}

impl Default for LoginAttemptId {
    /// A fresh time-ordered (version-7) identifier, which `parse` accepts
    /// unchanged.
    fn default() -> (r: Self)
        ensures
            hyphenated_uuid(r@) == Some(r@),
            is_uuid_v7_text(r@),
    {
        LoginAttemptId { value: fresh_uuid_v7() }
    }
}

impl Clone for LoginAttemptId {
    fn clone(&self) -> (r: Self)
        ensures
            r@ == self@,
    {
        LoginAttemptId { value: self.value.clone() }
    }
}

impl PartialEq for LoginAttemptId {
    fn eq(&self, other: &LoginAttemptId) -> (r: bool) {
        self.value == other.value
    }
}

impl vstd::std_specs::cmp::PartialEqSpecImpl for LoginAttemptId {
    open spec fn obeys_eq_spec() -> bool {
        true
    }

    open spec fn eq_spec(&self, other: &LoginAttemptId) -> bool {
        self@ == other@
    }
}

/// Six characters, each a decimal digit (leading zeros included).
pub open spec fn is_six_digit_code(s: Seq<char>) -> bool {
    s.len() == 6 && forall|i: int| 0 <= i < 6 ==> '0' <= #[trigger] s[i] <= '9'
}

/// The one-character text of a decimal digit.
fn digit_text(d: u8) -> (r: &'static str)
    requires
        d <= 9,
    ensures
        r@.len() == 1,
        '0' <= r@[0] <= '9',
{
    proof {
        reveal_strlit("0");
        reveal_strlit("1");
        reveal_strlit("2");
        reveal_strlit("3");
        reveal_strlit("4");
        reveal_strlit("5");
        reveal_strlit("6");
        reveal_strlit("7");
        reveal_strlit("8");
        reveal_strlit("9");
    }
    match d {
        0 => "0",
        1 => "1",
        2 => "2",
        3 => "3",
        4 => "4",
        5 => "5",
        6 => "6",
        7 => "7",
        8 => "8",
        _ => "9",
    }
}

/// A six-digit second-factor code.
pub struct TwoFACode {
    value: String,
}

impl View for TwoFACode {
    type V = Seq<char>;

    closed spec fn view(&self) -> Seq<char> {
        self.value@
    }
}

impl TwoFACode {
    #[verifier::type_invariant]
    spec fn inv(&self) -> bool {
        is_six_digit_code(self.value@)
    }

    /// Accepts exactly the strings of six decimal digits, unchanged.
    pub fn parse(code: &str) -> (r: Result<TwoFACode, ParseError>)
        ensures
            r is Ok <==> is_six_digit_code(code@),
            r matches Ok(c) ==> c@ == code@,
            r matches Err(k) ==> k == ParseError::TwoFACode,
    {
        if code.unicode_len() != 6 {
            return Err(ParseError::TwoFACode);
        }
        let mut i: usize = 0;
        while i < 6
            invariant
                code@.len() == 6,
                i <= 6,
                forall|j: int| 0 <= j < i ==> '0' <= #[trigger] code@[j] <= '9',
            decreases 6 - i,
        {
            let c = code.get_char(i);
            if !('0' <= c && c <= '9') {
                return Err(ParseError::TwoFACode);
            }
            i = i + 1;
        }
        Ok(TwoFACode { value: code.to_owned() })
    }

    pub fn as_str(&self) -> (r: &str)
        ensures
            r@ == self@,
            is_six_digit_code(r@),
    {
        proof {
            use_type_invariant(self);
        }
        self.value.as_str()
    }
}

impl Default for TwoFACode {
    /// A code of six digits drawn at random one by one.
    fn default() -> (r: Self)
        ensures
            is_six_digit_code(r@),
    {
        let mut value = String::new();
        let mut i: usize = 0;
        while i < 6
            invariant
                i <= 6,
                value@.len() == i,
                forall|j: int| 0 <= j < i ==> '0' <= #[trigger] value@[j] <= '9',
            decreases 6 - i,
        {
            let d = random_decimal_digit();
            let ghost before = value@;
            let t = digit_text(d);
            value.append(t);
            assert(value@[i as int] == t@[0]);
            assert forall|j: int| 0 <= j < i implies value@[j] == before[j] by {}
            i = i + 1;
        }
        TwoFACode { value }
    }
}

impl Clone for TwoFACode {
    fn clone(&self) -> (r: Self)
        ensures
            r@ == self@,
    {
        proof {
            use_type_invariant(self);
        }
        TwoFACode { value: self.value.clone() }
    }
}

impl PartialEq for TwoFACode {
    fn eq(&self, other: &TwoFACode) -> (r: bool) {
        self.value == other.value
    }
}

impl vstd::std_specs::cmp::PartialEqSpecImpl for TwoFACode {
    open spec fn obeys_eq_spec() -> bool {
        true
    }

    open spec fn eq_spec(&self, other: &TwoFACode) -> bool {
        self@ == other@
    }
}

/// Failures of a second-factor challenge store.
#[derive(Debug, Clone, Copy, PartialEq, Eq, Structural)]
pub enum TwoFACodeStoreError {
    LoginAttemptIdNotFound,
    UnexpectedError,
}

/// Failures of an account store.
#[derive(Debug, Clone, Copy, PartialEq, Eq, Structural)]
pub enum UserStoreError {
    UserAlreadyExists,
    UserNotFound,
    InvalidCredentials,
    UnexpectedError,
}

/// Where outstanding second-factor challenges are kept: one per address, each
/// the pair (login attempt id, code). `UnexpectedError` stands for a failing
/// backend and leaves the contents as they were. A backend that keeps no model
/// of itself leaves the spec functions at their defaults, of which nothing is
/// known.
pub trait TwoFACodeStore {
    /// The store's own well-formedness, kept by every operation.
    closed spec fn valid(&self) -> bool {
        arbitrary()
    }

    /// Whether the store never fails: an in-memory store is reliable, a
    /// backend reached over the network may not be.
    closed spec fn reliable(&self) -> bool {
        arbitrary()
    }

    closed spec fn challenges(&self) -> Map<Seq<char>, (Seq<char>, Seq<char>)> {
        arbitrary()
    }

    /// Puts the challenge for `email`, replacing any earlier one.
    fn add_code(&mut self, email: Email, login_attempt_id: LoginAttemptId, code: TwoFACode) -> (r:
        Result<(), TwoFACodeStoreError>)
        requires
            old(self).valid(),
        ensures
            final(self).valid(),
            final(self).reliable() == old(self).reliable(),
            old(self).reliable() ==> r is Ok,
            match r {
                Ok(()) => final(self).challenges() == old(self).challenges().insert(
                    email@,
                    (login_attempt_id@, code@),
                ),
                Err(e) => e == TwoFACodeStoreError::UnexpectedError && final(self).challenges()
                    == old(self).challenges(),
            },
    ;

    /// Drops the challenge for `email`; an absent one is no error.
    fn remove_code(&mut self, email: &Email) -> (r: Result<(), TwoFACodeStoreError>)
        requires
            old(self).valid(),
        ensures
            final(self).valid(),
            final(self).reliable() == old(self).reliable(),
            old(self).reliable() ==> r is Ok,
            match r {
                Ok(()) => final(self).challenges() == old(self).challenges().remove(email@),
                Err(e) => e == TwoFACodeStoreError::UnexpectedError && final(self).challenges()
                    == old(self).challenges(),
            },
    ;

    fn get_code(&self, email: &Email) -> (r: Result<(LoginAttemptId, TwoFACode), TwoFACodeStoreError>)
        requires
            self.valid(),
        ensures
            self.reliable() ==> !(r matches Err(TwoFACodeStoreError::UnexpectedError)),
            match r {
                Ok((id, code)) => self.challenges().contains_key(email@) && self.challenges()[email@]
                    == (id@, code@),
                Err(TwoFACodeStoreError::LoginAttemptIdNotFound) => !self.challenges().contains_key(
                    email@,
                ),
                Err(TwoFACodeStoreError::UnexpectedError) => true,
            },
    ;
}

/// Removing a challenge is idempotent: a second removal for the same address
/// leaves the contents as the first one left them.
pub proof fn lemma_remove_code_idempotent(
    challenges: Map<Seq<char>, (Seq<char>, Seq<char>)>,
    email: Seq<char>,
)
    ensures
        challenges.remove(email).remove(email) == challenges.remove(email),
{
    assert(challenges.remove(email).remove(email) =~= challenges.remove(email));
}

/// Where accounts are kept, by address, each with whether it asks for a second
/// factor. `UnexpectedError` stands for a failing backend and leaves the
/// contents as they were. A backend that keeps no model of itself leaves the
/// spec functions at their defaults, of which nothing is known.
pub trait UserStore {
    /// The store's own well-formedness, kept by every operation.
    closed spec fn valid(&self) -> bool {
        arbitrary()
    }

    /// Whether the store never fails: an in-memory store is reliable, a
    /// backend reached over the network may not be.
    closed spec fn reliable(&self) -> bool {
        arbitrary()
    }

    closed spec fn accounts(&self) -> Map<Seq<char>, bool> {
        arbitrary()
    }

    /// Whether `password` opens the account stored under `email`.
    closed spec fn password_opens(&self, email: Seq<char>, password: Seq<char>) -> bool {
        arbitrary()
    }

    /// Adds `user`; on success the stored account opens with the password it
    /// was given.
    fn add_user(&mut self, user: User) -> (r: Result<(), UserStoreError>)
        requires
            old(self).valid(),
        ensures
            final(self).valid(),
            final(self).reliable() == old(self).reliable(),
            old(self).reliable() && password_hashable(user.password@) ==> !(r matches Err(
                UserStoreError::UnexpectedError,
            )),
            r is Ok ==> final(self).password_opens(user.email@, user.password@),
            match r {
                Ok(()) => !old(self).accounts().contains_key(user.email@) && final(self).accounts()
                    == old(self).accounts().insert(user.email@, user.requires_2fa),
                Err(UserStoreError::UserAlreadyExists) => old(self).accounts().contains_key(
                    user.email@,
                ) && final(self).accounts() == old(self).accounts(),
                Err(UserStoreError::UnexpectedError) => final(self).accounts() == old(
                    self,
                ).accounts(),
                Err(_) => false,
            },
    ;

    fn get_user(&self, email: &Email) -> (r: Result<User, UserStoreError>)
        requires
            self.valid(),
        ensures
            self.reliable() ==> !(r matches Err(UserStoreError::UnexpectedError)),
            match r {
                Ok(u) => self.accounts().contains_key(email@) && u.email@ == email@
                    && u.requires_2fa == self.accounts()[email@],
                Err(UserStoreError::UserNotFound) => !self.accounts().contains_key(email@),
                Err(UserStoreError::UnexpectedError) => true,
                Err(_) => false,
            },
    ;

    fn validate_user(&self, email: &Email, password: &Password) -> (r: Result<(), UserStoreError>)
        requires
            self.valid(),
        ensures
            self.reliable() ==> !(r matches Err(UserStoreError::UnexpectedError)),
            match r {
                Ok(()) => self.accounts().contains_key(email@) && self.password_opens(
                    email@,
                    password@,
                ),
                Err(UserStoreError::UserNotFound) => !self.accounts().contains_key(email@),
                Err(UserStoreError::InvalidCredentials) => self.accounts().contains_key(email@)
                    && !self.password_opens(email@, password@),
                Err(UserStoreError::UnexpectedError) => true,
                Err(_) => false,
            },
    ;
}

} // verus!
