//! Email addresses.

use vstd::prelude::*;

verus! {

/// Whether a string is an email address as the `validator` crate judges it,
/// by the rules of the HTML5 specification.
pub uninterp spec fn email_is_valid(s: Seq<char>) -> bool;

/// Asks `validator::ValidateEmail::validate_email` whether `s` is an email
/// address. The answer depends on `s` alone. A string without `@` is none.
#[verifier::external_body]
fn validate_email(s: &str) -> (r: bool)
    ensures
        r == email_is_valid(s@),
        !s@.contains('@') ==> !r,
{
    validator::ValidateEmail::validate_email(&s)
}

/// A string was refused as an email address.
#[derive(Clone, Copy, Debug, PartialEq, Eq, Structural, Hash)]
pub struct InvalidEmail;

/// An email address.
#[derive(Debug, PartialEq, Eq, Hash)]
pub struct EmailAddr {
    inner: String,
}

impl View for EmailAddr {
    type V = Seq<char>;

    closed spec fn view(&self) -> Seq<char> {
        self.inner@
    }
}

impl Clone for EmailAddr {
    fn clone(&self) -> (r: Self)
        ensures
            r == *self,
    {
        EmailAddr { inner: self.inner.clone() }
    }
}

impl EmailAddr {
    /// Takes `s` as an email address if it is one.
    pub fn try_from(s: String) -> (r: Result<EmailAddr, InvalidEmail>)
        ensures
            email_is_valid(s@) ==> r is Ok && r.unwrap()@ == s@,
            !email_is_valid(s@) ==> r is Err,
            !s@.contains('@') ==> r is Err,
    {
        if validate_email(s.as_str()) {
            Ok(EmailAddr { inner: s })
        } else {
            Err(InvalidEmail)
        }
    }

    /// The address as a string.
    pub fn into_inner(self) -> (r: String)
        ensures
            r@ == self@,
    {
        self.inner
    }

    /// The address as a string slice.
    pub fn as_ref(&self) -> (r: &str)
        ensures
            r@ == self@,
    {
        self.inner.as_str()
    }
}

/// An email address of a user.
#[derive(Debug, PartialEq, Eq, Hash)]
pub struct EmailInfo {
    /// The address itself.
    pub email: EmailAddr,
    /// Whether the user has shown that the address is theirs.
    pub is_verified: bool,
    /// Whether this is the user's primary address.
    pub is_primary: bool,
}

/// A change to an email address of a user.
#[derive(Clone, Copy, Debug, PartialEq, Eq, Structural, Hash)]
pub struct EmailInfoPatch {
    /// Whether this is to be the user's primary address.
    pub is_primary: Option<bool>,
}

/// What someone with access to an email address can do.
#[derive(Clone, Copy, Debug, PartialEq, Eq, Structural, Hash)]
pub enum EmailTrust {
    /// Nothing; the only level that an unverified address can have.
    Never,
    /// Log in.
    Trusted,
    /// Reset the password, and receive security notices.
    Full,
}

} // verus!
