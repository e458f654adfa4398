//! Credentials kept in `secrecy::Secret`, which wipes them from memory when
//! they are dropped and never prints them.

use secrecy::{ExposeSecret, Secret};
use vstd::prelude::*;

verus! {

/// A secret text, such as a provider's token or a password, held in a
/// `secrecy::Secret<String>`. Nothing is known of it but through
/// [`secret_text`].
#[verifier::external_body]
#[derive(Debug)]
pub struct SecretText {
    inner: Secret<String>,
}

/// The text that a secret holds.
pub uninterp spec fn secret_text(secret: SecretText) -> Seq<char>;

/// `Secret::new` takes ownership of the text and keeps it as it is.
#[verifier::external_body]
fn seal(text: String) -> (secret: SecretText)
    ensures
        secret_text(secret) == text@,
{
    SecretText { inner: Secret::new(text) }
}

/// `ExposeSecret::expose_secret` lends the text inside the secret.
#[verifier::external_body]
fn unseal(secret: &SecretText) -> (text: &str)
    ensures
        text@ == secret_text(*secret),
{
    secret.inner.expose_secret().as_str()
}

/// `Clone::clone` of a secret makes a secret that holds a copy of the text.
#[verifier::external_body]
fn reseal(secret: &SecretText) -> (copy: SecretText)
    ensures
        secret_text(copy) == secret_text(*secret),
{
    SecretText { inner: secret.inner.clone() }
}

impl SecretText {
    /// Puts `text` under seal.
    pub fn new(text: String) -> (secret: SecretText)
        ensures
            secret_text(secret) == text@,
    {
        seal(text)
    }

    /// Lends the text, for the one use that needs it in the clear.
    pub fn expose(&self) -> (text: &str)
        ensures
            text@ == secret_text(*self),
    {
        unseal(self)
    }
}

impl Clone for SecretText {
    fn clone(&self) -> (copy: SecretText)
        ensures
            secret_text(copy) == secret_text(*self),
    {
        reseal(self)
    }
}

} // verus!
