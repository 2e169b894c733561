//! Secret-carrying strings: text that must never reach a log or a debug print.

use secrecy::ExposeSecret;
use secrecy::Secret;
use vstd::prelude::*;

verus! {

/// A string held inside `secrecy::Secret`, so that printing it with `Debug`
/// shows a redaction marker and the memory is wiped when it is dropped.
///
/// Verified code never looks inside: it reads the text through
/// [`SecretText::expose_secret`] and reasons about it through the view.
#[verifier::external_body]
#[derive(Debug)]
pub struct SecretText {
    inner: Secret<String>,
}

/// The text that a secret wraps.
pub uninterp spec fn secret_text(s: SecretText) -> Seq<char>;

impl View for SecretText {
    type V = Seq<char>;

    open spec fn view(&self) -> Seq<char> {
        secret_text(*self)
    }
}

/// `secrecy::Secret::new`: takes ownership of the text and wraps it unchanged.
#[verifier::external_body]
fn seal(text: String) -> (s: SecretText)
    ensures
        secret_text(s) == text@,
{
    SecretText { inner: Secret::new(text) }
}

/// `secrecy::ExposeSecret::expose_secret`: a reference to the wrapped text.
#[verifier::external_body]
fn unseal(s: &SecretText) -> (text: &String)
    ensures
        text@ == secret_text(*s),
{
    s.inner.expose_secret()
}

/// `Clone::clone` of `secrecy::Secret<String>`: the copy wraps a copy of the text.
#[verifier::external_body]
fn reseal(s: &SecretText) -> (copy: SecretText)
    ensures
        secret_text(copy) == secret_text(*s),
{
    SecretText { inner: s.inner.clone() }
}

impl SecretText {
    /// Wraps `text`.
    pub fn new(text: String) -> (s: SecretText)
        ensures
            s@ == text@,
    {
        seal(text)
    }

    /// The wrapped text. Every read of a secret goes through this call.
    pub fn expose_secret(&self) -> (text: &String)
        ensures
            text@ == self@,
    {
        unseal(self)
    }

    /// Whether two secrets wrap the same text.
    pub fn same_text(&self, other: &SecretText) -> (r: bool)
        ensures
            r == (self@ == other@),
    {
        let a: &String = unseal(self);
        let b: &String = unseal(other);
        *a == *b
    }
}

impl Clone for SecretText {
    fn clone(&self) -> (copy: SecretText)
        ensures
            copy@ == self@,
    {
        reseal(self)
    }
}

} // verus!
