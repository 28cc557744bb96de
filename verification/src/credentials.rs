//! How a client authenticates: an API key held as a secret, or a token provider.

use reqwest::header::HeaderValue;
use secrecy::{ExposeSecret, SecretString};
use vstd::prelude::*;
use vstd::string::*;
use vstd::utf8::encode_utf8;

use crate::text::{trim, trimmed};

verus! {

/// An API key, held as a `secrecy::SecretString` so that its text is wiped from memory on drop.
///
/// Verus cannot be told of `SecretString` itself (its generic parameter is unsized), so it
/// stands in a private field here; the text it holds is named by `secret_text`.
#[verifier::external_body]
#[derive(Debug)]
pub struct ApiKey {
    secret: SecretString,
}

#[verifier::external_type_specification]
#[verifier::external_body]
pub struct ExHeaderValue(HeaderValue);

/// The text an API key holds.
pub uninterp spec fn secret_text(key: ApiKey) -> Seq<char>;

impl ApiKey {
    /// Calls `SecretString::from(String)`, which boxes the string's text as the secret.
    #[verifier::external_body]
    pub fn new(text: String) -> (r: ApiKey)
        ensures
            secret_text(r) == text@,
    {
        ApiKey { secret: SecretString::from(text) }
    }

    /// Calls `ExposeSecret::expose_secret`, which hands out the text the secret holds.
    #[verifier::external_body]
    pub fn expose(&self) -> (r: &str)
        ensures
            r@ == secret_text(*self),
    {
        self.secret.expose_secret()
    }
}

/// A byte that `HeaderValue::from_str` accepts: visible ASCII, tab, or any byte from 128 up.
pub open spec fn header_byte_ok(b: u8) -> bool {
    (b >= 32 && b != 127) || b == 9
}

/// Whether `HeaderValue::from_str` accepts text with this UTF-8 encoding.
pub open spec fn header_text_ok(bytes: Seq<u8>) -> bool {
    forall|i: int| 0 <= i < bytes.len() ==> header_byte_ok(#[trigger] bytes[i])
}

/// The bytes a `HeaderValue` holds.
pub uninterp spec fn header_value_bytes(v: HeaderValue) -> Seq<u8>;

/// Calls `HeaderValue::from_str`, which in the `http` crate's source accepts the text exactly
/// when every byte of it is valid in a header value, and then holds those bytes.
#[verifier::external_body]
pub fn header_value_from_str(text: &str) -> (r: Option<HeaderValue>)
    ensures
        r is Some <==> header_text_ok(text.spec_bytes()),
        r matches Some(v) ==> header_value_bytes(v) == text.spec_bytes(),
{
    match HeaderValue::from_str(text) {
        Ok(v) => Some(v),
        Err(_) => None,
    }
}

/// The `Authorization` value sent for a secret (an API key or a provider's token): `Bearer `
/// and the secret without surrounding whitespace.
pub open spec fn bearer_text(key: Seq<char>) -> Seq<char> {
    "Bearer "@ + trimmed(key)
}

/// Why a secret cannot be sent, if it cannot: blank, or holding bytes a header refuses.
pub open spec fn bearer_problem(key: Seq<char>) -> Option<Seq<char>> {
    if trimmed(key).len() == 0 {
        Some("is blank"@)
    } else if !header_text_ok(encode_utf8(bearer_text(key))) {
        Some("contains characters that are not allowed in an HTTP header"@)
    } else {
        None
    }
}

/// Builds the `Authorization` header value for a secret, an API key's text or a token a
/// provider handed out: `Bearer ` and the secret without surrounding whitespace; or says why
/// the secret cannot be sent.
pub fn bearer_value(secret: &str) -> (r: Result<HeaderValue, &'static str>)
    ensures
        match bearer_problem(secret@) {
            Some(m) => r matches Err(e) && e@ == m,
            None => r matches Ok(v) && header_value_bytes(v) == encode_utf8(bearer_text(secret@)),
        },
{
    proof {
        reveal_strlit("is blank");
        reveal_strlit("contains characters that are not allowed in an HTTP header");
        reveal_strlit("Bearer ");
    }
    let t = trim(secret);
    if t.unicode_len() == 0 {
        return Err("is blank");
    }
    let mut value = String::from_str("Bearer ");
    value.append(t);
    match header_value_from_str(value.as_str()) {
        Some(v) => Ok(v),
        None => Err("contains characters that are not allowed in an HTTP header"),
    }
}

/// Builds the `Authorization` header value for an API key, or says why the key cannot be sent.
pub fn bearer_header(key: &ApiKey) -> (r: Result<HeaderValue, &'static str>)
    ensures
        match bearer_problem(secret_text(*key)) {
            Some(m) => r matches Err(e) && e@ == m,
            None => r matches Ok(v) && header_value_bytes(v) == encode_utf8(
                bearer_text(secret_text(*key)),
            ),
        },
{
    bearer_value(key.expose())
}

/// How a client proves who it is.
#[derive(Debug)]
pub enum Credentials {
    /// An API key, sent as a bearer token.
    ApiKey(ApiKey),
    /// A provider that hands out bearer tokens, asked before every attempt.
    Provider,
}

/// Credentials as contracts speak of them.
pub enum CredentialsView {
    /// An API key with its text.
    ApiKey(Seq<char>),
    /// A token provider.
    Provider,
}

impl View for Credentials {
    type V = CredentialsView;

    open spec fn view(&self) -> CredentialsView {
        match self {
            Credentials::ApiKey(k) => CredentialsView::ApiKey(secret_text(*k)),
            Credentials::Provider => CredentialsView::Provider,
        }
    }
}

} // verus!
