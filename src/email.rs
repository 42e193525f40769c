use validator::ValidateEmail;
use vstd::prelude::*;

use crate::error::ParseError;

verus! {

/// Whether the outside email validator accepts `s` (HTML5 address syntax:
/// a local part, one `@`, then a host name or a bracketed IP literal).
pub uninterp spec fn email_syntax_ok(s: Seq<char>) -> bool;

/// `s` holds exactly one `@`, with at least one character on each side of it.
pub open spec fn one_inner_at_sign(s: Seq<char>) -> bool {
    exists|i: int|
        0 < i < s.len() - 1 && #[trigger] s[i] == '@' && forall|j: int|
            0 <= j < s.len() && j != i ==> s[j] != '@'
}

/// Relies on `validator::ValidateEmail::validate_email` for `&str`: the verdict
/// depends on the text alone. An accepted address splits at its last `@` into a
/// non-empty local part drawn from a set of characters without `@`, and a
/// non-empty domain part.
#[verifier::external_body]
fn email_syntax_check(s: &str) -> (r: bool)
    ensures
        r == email_syntax_ok(s@),
        r ==> one_inner_at_sign(s@),
{
    s.validate_email()
}

/// An email address that passed syntactic validation.
pub struct Email {
    value: String,
}

impl View for Email {
    type V = Seq<char>;

    closed spec fn view(&self) -> Seq<char> {
        self.value@
    }
}

impl Email {
    #[verifier::type_invariant]
    spec fn inv(&self) -> bool {
        email_syntax_ok(self.value@)
    }

    /// Accepts `email` exactly when the validator does; the address is kept
    /// unchanged.
    pub fn parse(email: &str) -> (r: Result<Email, ParseError>)
        ensures
            r is Ok <==> email_syntax_ok(email@),
            r matches Ok(e) ==> e@ == email@ && one_inner_at_sign(email@),
            r matches Err(k) ==> k == ParseError::Email,
    {
        if !email_syntax_check(email) {
            return Err(ParseError::Email);
        }
        Ok(Email { value: email.to_owned() })
    }

    /// The address; the validator accepts it, so parsing it again gives an
    /// equal `Email`.
    pub fn as_str(&self) -> (r: &str)
        ensures
            r@ == self@,
            email_syntax_ok(r@),
    {
        proof {
            use_type_invariant(self);
        }
        self.value.as_str()
    }

    pub fn to_string(&self) -> (r: String)
        ensures
            r@ == self@,
    {
        self.value.clone()
    }
}

impl Clone for Email {
    fn clone(&self) -> (r: Self)
        ensures
            r@ == self@,
    {
        proof {
            use_type_invariant(self);
        }
        Email { value: self.value.clone() }
    }
}

impl PartialEq for Email {
    fn eq(&self, other: &Email) -> (r: bool) {
        self.value == other.value
    }
}

impl vstd::std_specs::cmp::PartialEqSpecImpl for Email {
    open spec fn obeys_eq_spec() -> bool {
        true
    }

    open spec fn eq_spec(&self, other: &Email) -> bool {
        self@ == other@
    }
}

} // verus!
