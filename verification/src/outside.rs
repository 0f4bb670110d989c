//! The calls that the gateway makes into other crates. Verus takes the
//! contracts in this file on trust: each states what the called function's own
//! source or documentation says, and nothing here is proved.

use crate::credentials::{Claims, ValidationFailure};
use crate::keyset::SigningKey;
use crate::metadata::{is_header_value, HeaderValue};
use axum_extra::extract::cookie::CookieJar;
use clerk_rs::validators::authorizer::{validate_jwt_with_key, ClerkError};
use clerk_rs::validators::jwks::JwksKey;
use tonic::codegen::http;
use vstd::prelude::*;
use vstd::utf8::encode_utf8;

verus! {

/// The byte strings that a list of header values carries.
pub open spec fn bytes_of(values: Seq<HeaderValue>) -> Seq<Seq<u8>> {
    Seq::new(values.len(), |i: int| values[i]@)
}

/// The value of the cookie called `name` in a cookie jar that
/// `axum_extra::extract::cookie::CookieJar::from_headers` builds from the given
/// values of the `cookie` header; `None` where the jar holds no such cookie.
pub uninterp spec fn cookie_value(cookie_headers: Seq<Seq<u8>>, name: Seq<char>) -> Option<
    Seq<char>,
>;

/// Calls `CookieJar::from_headers` on a header map that carries exactly the
/// given values under `cookie`, then `CookieJar::get` and `Cookie::value`.
/// The header map takes every given value: a [`HeaderValue`] holds only bytes
/// that `http::HeaderValue::from_bytes` accepts.
///
/// Claimed: the result is the named function of the header bytes and the cookie
/// name, and a jar built from no header holds no cookie.
#[verifier::external_body]
pub(crate) fn cookie_from_headers(cookie_headers: &Vec<HeaderValue>, name: &str) -> (value: Option<
    String,
>)
    ensures
        value is Some <==> cookie_value(bytes_of(cookie_headers@), name@) is Some,
        value matches Some(text) ==> Some(text@) == cookie_value(bytes_of(cookie_headers@), name@),
        cookie_headers.len() == 0 ==> value is None,
{
    let mut headers = http::HeaderMap::new();
    for header in cookie_headers.iter() {
        if let Ok(value) = http::HeaderValue::from_bytes(header.as_bytes()) {
            headers.append(http::header::COOKIE, value);
        }
    }
    CookieJar::from_headers(&headers).get(name).map(|cookie| cookie.value().to_owned())
}

/// Calls `http::HeaderValue::from_str` and hands out the bytes of the value.
///
/// Claimed: the call succeeds exactly when every byte of the text's UTF-8
/// encoding may occur in a header value, and the value then holds those bytes.
#[verifier::external_body]
pub(crate) fn header_value_from_str(text: &str) -> (bytes: Option<Vec<u8>>)
    ensures
        bytes is Some <==> is_header_value(encode_utf8(text@)),
        bytes matches Some(b) ==> b@ == encode_utf8(text@),
{
    match http::HeaderValue::from_str(text) {
        Ok(value) => Some(value.as_bytes().to_vec()),
        Err(_) => None,
    }
}

/// The key id that `jsonwebtoken::decode_header` finds in the header of
/// `token`; `None` where the header cannot be decoded or names no key.
pub uninterp spec fn token_key_id(token: Seq<char>) -> Option<Seq<char>>;

/// Calls `jsonwebtoken::decode_header` and hands out the header's `kid`.
///
/// Claimed: the result is the named function of the token's text.
#[verifier::external_body]
pub(crate) fn decode_key_id(token: &str) -> (key_id: Option<String>)
    ensures
        key_id is Some <==> token_key_id(token@) is Some,
        key_id matches Some(text) ==> Some(text@) == token_key_id(token@),
{
    match jsonwebtoken::decode_header(token) {
        Ok(header) => header.kid,
        Err(_) => None,
    }
}

/// The algorithm of the keys that credentials are checked against.
pub open spec fn supported_algorithm() -> Seq<char> {
    "RS256"@
}

/// What is reported of a key with another algorithm.
pub open spec fn unsupported_algorithm_message() -> Seq<char> {
    "Error: Unsupported key algorithm"@
}

/// The check was refused because the key is for an unsupported algorithm.
pub open spec fn is_unsupported_algorithm(checked: Result<Claims, ValidationFailure>) -> bool {
    checked matches Err(ValidationFailure::Internal(message)) && message@
        == unsupported_algorithm_message()
}

/// Calls `clerk_rs::validators::authorizer::validate_jwt_with_key`, which
/// checks the token's signature and validity period against the key, and
/// hands out the subject and issuer claims or the failure.
///
/// Claimed: a key for another algorithm than RS256 is refused as an internal
/// failure, with a fixed message. Of other keys nothing is claimed: the
/// result depends on the clock.
#[verifier::external_body]
pub(crate) fn validate_with_key(token: &str, key: &SigningKey) -> (checked: Result<
    Claims,
    ValidationFailure,
>)
    ensures
        key.alg@ != supported_algorithm() ==> is_unsupported_algorithm(checked),
{
    let jwk = JwksKey {
        use_key: key.use_key.clone(),
        kty: key.kty.clone(),
        kid: key.kid.clone(),
        alg: key.alg.clone(),
        n: key.n.clone(),
        e: key.e.clone(),
    };
    match validate_jwt_with_key(token, &jwk) {
        Ok(claims) => Ok(Claims { subject: claims.sub, issuer: claims.iss }),
        Err(ClerkError::Unauthorized(message)) => Err(ValidationFailure::Unauthorized(message)),
        Err(ClerkError::InternalServerError(message)) => Err(ValidationFailure::Internal(message)),
    }
}

} // verus!
