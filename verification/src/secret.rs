//! Secret material that cannot be printed by accident.

use vstd::prelude::*;

verus! {

/// A secret string: an API key, a client secret, a private key, an account
/// number. The type offers no formatting, so a value cannot reach a log by
/// way of `{:?}`; its text is read only through [`Secret::peek`] and
/// [`Secret::expose`].
#[derive(PartialEq, Eq)]
pub struct Secret {
    inner: String,
}

impl View for Secret {
    type V = Seq<char>;

    closed spec fn view(&self) -> Seq<char> {
        self.inner@
    }
}

impl Secret {
    /// Wraps `value`.
    pub fn new(value: String) -> (result: Secret)
        ensures
            result@ == value@,
    {
        Secret { inner: value }
    }

    /// Borrows the secret text.
    pub fn peek(&self) -> (result: &str)
        ensures
            result@ == self@,
    {
        self.inner.as_str()
    }

    /// Gives up the secret text.
    pub fn expose(self) -> (result: String)
        ensures
            result@ == self@,
    {
        self.inner
    }
}

impl Clone for Secret {
    fn clone(&self) -> (result: Secret)
        ensures
            result@ == self@,
    {
        Secret { inner: self.inner.clone() }
    }
}

/// A header value that is either printable or secret.
#[derive(Clone, PartialEq, Eq)]
pub enum Maskable {
    /// A value that must not be logged.
    Masked(Secret),
    /// A value that may be logged.
    Normal(String),
}

impl View for Maskable {
    type V = Seq<char>;

    open spec fn view(&self) -> Seq<char> {
        match self {
            Maskable::Masked(secret) => secret@,
            Maskable::Normal(text) => text@,
        }
    }
}

impl Maskable {
    /// Whether the value is to be kept out of logs.
    pub open spec fn spec_is_masked(&self) -> bool {
        self is Masked
    }

    /// Whether the value is to be kept out of logs.
    pub fn is_masked(&self) -> (result: bool)
        ensures
            result == self.spec_is_masked(),
    {
        match self {
            Maskable::Masked(_) => true,
            Maskable::Normal(_) => false,
        }
    }

    /// Borrows the text of the value, secret or not.
    pub fn peek(&self) -> (result: &str)
        ensures
            result@ == self@,
    {
        match self {
            Maskable::Masked(secret) => secret.peek(),
            Maskable::Normal(text) => text.as_str(),
        }
    }
}

} // verus!
