//! A secret text that is wiped from memory when dropped and never shown by `Debug`.
use secrecy::{ExposeSecret, SecretString};
use vstd::prelude::*;

verus! {

/// A secret text, held in a `secrecy::SecretString`: its memory is wiped on
/// drop, and its `Debug` output does not show it.
///
/// The outside type is bounded by a trait of its own crate, so it is held
/// behind this opaque struct; [`secret_text`] says what it holds.
#[verifier::external_body]
#[derive(Debug)]
pub struct Secret {
    inner: SecretString,
}

/// The text that a secret holds.
pub uninterp spec fn secret_text(secret: Secret) -> Seq<char>;

impl View for Secret {
    type V = Seq<char>;

    open spec fn view(&self) -> Seq<char> {
        secret_text(*self)
    }
}

/// Calls `SecretString::from(String)`: the secret holds exactly the given text.
#[verifier::external_body]
fn secret_from_string(text: String) -> (secret: Secret)
    ensures
        secret_text(secret) == text@,
{
    Secret { inner: SecretString::from(text) }
}

/// Calls `SecretString::expose_secret`: it shows exactly the text that is held.
#[verifier::external_body]
fn secret_exposed(secret: &Secret) -> (text: &str)
    ensures
        text@ == secret_text(*secret),
{
    secret.inner.expose_secret()
}

/// Calls `SecretString::clone`: the copy holds the same text.
#[verifier::external_body]
fn secret_cloned(secret: &Secret) -> (copy: Secret)
    ensures
        secret_text(copy) == secret_text(*secret),
{
    Secret { inner: secret.inner.clone() }
}

impl Secret {
    /// Put `text` under guard.
    pub fn new(text: String) -> (secret: Secret)
        ensures
            secret@ == text@,
    {
        secret_from_string(text)
    }

    /// The guarded text.
    pub fn expose_secret(&self) -> (text: &str)
        ensures
            text@ == self@,
    {
        secret_exposed(self)
    }
}

impl Clone for Secret {
    fn clone(&self) -> (copy: Secret)
        ensures
            copy@ == self@,
    {
        secret_cloned(self)
    }
}

} // verus!
