use vstd::prelude::*;

use crate::error::ParseError;

verus! {

/// The fewest characters a password may have.
pub const MIN_PASSWORD_CHARS: usize = 8;

/// A password, or a stored credential standing for one (a hash). `parse`
/// admits only passwords of at least `MIN_PASSWORD_CHARS` characters. It has
/// no `Debug`, so it is never printed.
pub struct Password {
    value: String,
}

impl View for Password {
    type V = Seq<char>;

    closed spec fn view(&self) -> Seq<char> {
        self.value@
    }
}

impl Password {
    /// Accepts exactly the passwords of at least eight characters, unchanged.
    pub fn parse(password: &str) -> (r: Result<Password, ParseError>)
        ensures
            r is Ok <==> password@.len() >= MIN_PASSWORD_CHARS,
            r matches Ok(p) ==> p@ == password@,
            r matches Err(k) ==> k == ParseError::Password,
    {
        if password.unicode_len() < MIN_PASSWORD_CHARS {
            return Err(ParseError::Password);
        }
        Ok(Password { value: password.to_owned() })
    }

    /// A stored credential (such as a password hash), taken as it is.
    pub fn from_stored(value: String) -> (r: Password)
        ensures
            r@ == value@,
    {
        Password { value }
    }

    pub fn as_str(&self) -> (r: &str)
        ensures
            r@ == self@,
    {
        self.value.as_str()
    }
}

impl Clone for Password {
    fn clone(&self) -> (r: Self)
        ensures
            r@ == self@,
    {
        Password { value: self.value.clone() }
    }
}

impl PartialEq for Password {
    fn eq(&self, other: &Password) -> (r: bool) {
        self.value == other.value
    }
}

impl vstd::std_specs::cmp::PartialEqSpecImpl for Password {
    open spec fn obeys_eq_spec() -> bool {
        true
    }

    open spec fn eq_spec(&self, other: &Password) -> bool {
        self@ == other@
    }
}

} // verus!
