//! Secret tokens.
//!
//! A token is held in a `secrecy::SecretString`, whose `Debug` output is a
//! fixed placeholder and whose memory is wiped when it is dropped. The
//! functions here are the only place where the text of a token is read.

use secrecy::ExposeSecret;
use secrecy::SecretString;
use vstd::prelude::*;

verus! {

/// A token that signs the client in to the portal.
///
/// The field is a `secrecy::SecretString`. That type is bounded by a trait
/// of its crate, which keeps it from being declared to the verifier as it
/// is; so the verifier is told nothing about the field, and what it knows
/// of a token is [`token_text`].
#[verifier::external_body]
#[derive(Debug)]
pub struct Token {
    secret: SecretString,
}

/// The text that a token holds.
pub uninterp spec fn token_text(token: Token) -> Seq<char>;

impl View for Token {
    type V = Seq<char>;

    open spec fn view(&self) -> Seq<char> {
        token_text(*self)
    }
}

/// `secrecy::Secret::new` on a string: a secret that holds exactly that
/// string.
#[verifier::external_body]
fn seal(text: String) -> (token: Token)
    ensures
        token_text(token) == text@,
{
    Token { secret: SecretString::new(text) }
}

/// `secrecy::ExposeSecret::expose_secret` on the secret string: a reference
/// to the string that the secret was made from.
#[verifier::external_body]
fn unseal(token: &Token) -> (text: &String)
    ensures
        text@ == token_text(*token),
{
    token.secret.expose_secret()
}

impl Token {
    /// Wraps `text` as a secret.
    pub fn new(text: String) -> (token: Token)
        ensures
            token@ == text@,
    {
        seal(text)
    }

    /// The text of the token, for the one place that has to send it.
    pub fn expose_secret(&self) -> (text: &String)
        ensures
            text@ == self@,
    {
        unseal(self)
    }

    /// A second token with the same text.
    pub fn duplicate(&self) -> (copy: Token)
        ensures
            copy@ == self@,
    {
        seal(unseal(self).clone())
    }
}

} // verus!
