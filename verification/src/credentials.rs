//! The credential verifier: from a bearer token to the subject it stands for.
//!
//! Verification takes three steps: the token's header names a signing key; the
//! key-set cache resolves it, which may take a fetch from the identity
//! provider; the token is checked against the key. The fetch is the caller's
//! to make, so verification is split where it may be needed:
//! [`CredentialVerifier::begin_verify`] goes as far as the cache allows,
//! [`CredentialVerifier::resume_verify`] goes on after a fetch.

use crate::auth::{
    intercepted, session_token, unauthenticated_message, unauthenticated_rejection,
    user_id_header, verdict_view,
};
use crate::error::{AuthError, AuthErrorView};
use crate::keyset::{requested, resolved, KeySetCache, Lookup, LookupView, SigningKey};
use crate::metadata::{is_header_value, values_of};
use crate::outside::{
    decode_key_id, supported_algorithm, token_key_id, unsupported_algorithm_message,
    validate_with_key,
};
use crate::status::Code;
use vstd::prelude::*;
use vstd::utf8::encode_utf8;

verus! {

/// What a checked token asserts, as far as the gateway reads it.
#[derive(Debug)]
pub struct Claims {
    /// Whom the token stands for.
    pub subject: String,
    /// Who issued the token.
    pub issuer: String,
}

/// The mathematical value of [`Claims`].
pub struct ClaimsView {
    pub subject: Seq<char>,
    pub issuer: Seq<char>,
}

impl View for Claims {
    type V = ClaimsView;

    open spec fn view(&self) -> ClaimsView {
        ClaimsView { subject: self.subject@, issuer: self.issuer@ }
    }
}

/// How a check of a token against a key fails.
#[derive(Debug)]
pub enum ValidationFailure {
    /// The token does not hold: bad signature, expired, not yet valid.
    Unauthorized(String),
    /// The key cannot be used.
    Internal(String),
}

impl ValidationFailure {
    /// What the check reported.
    pub open spec fn message(self) -> Seq<char> {
        match self {
            ValidationFailure::Unauthorized(message) => message@,
            ValidationFailure::Internal(message) => message@,
        }
    }
}

/// The mathematical value of the result of a check: the claims, or what the
/// check reported.
pub open spec fn checked_view(checked: Result<Claims, ValidationFailure>) -> Result<
    ClaimsView,
    Seq<char>,
> {
    match checked {
        Ok(claims) => Ok(claims@),
        Err(failure) => Err(failure.message()),
    }
}

/// The mathematical value of the result of a verification.
pub open spec fn outcome_view(outcome: Result<String, AuthError>) -> Result<
    Seq<char>,
    AuthErrorView,
> {
    match outcome {
        Ok(subject) => Ok(subject@),
        Err(error) => Err(error@),
    }
}

/// The reason given for a token of another issuer than the expected one.
pub open spec fn wrong_issuer_message() -> Seq<char> {
    "Error: Invalid JWT! cause: InvalidIssuer"@
}

/// What a check's result means for the credential. A failed check makes the
/// credential invalid, with the check's message as the reason; so does an
/// issuer other than the expected one, where one is expected. Otherwise the
/// credential stands for the subject of its claims.
pub open spec fn outcome_of_check(
    checked: Result<ClaimsView, Seq<char>>,
    expected_issuer: Option<Seq<char>>,
) -> Result<Seq<char>, AuthErrorView> {
    match checked {
        Err(message) => Err(AuthErrorView::InvalidCredential { reason: message }),
        Ok(claims) => if expected_issuer matches Some(issuer) && issuer != claims.issuer {
            Err(AuthErrorView::InvalidCredential { reason: wrong_issuer_message() })
        } else {
            Ok(claims.subject)
        },
    }
}

/// What a caller is told of a verification: the subject, or that it is
/// unauthenticated, whatever the reason.
pub open spec fn verdict_of(outcome: Result<Seq<char>, AuthErrorView>) -> Result<
    Seq<char>,
    Seq<char>,
> {
    match outcome {
        Ok(subject) => Ok(subject),
        Err(_) => Err(unauthenticated_message()),
    }
}

/// What a check against a key of algorithm `key_alg` can give: a subject or an
/// invalid credential, and with a key of an unsupported algorithm only the
/// latter.
pub open spec fn may_come_of_check(
    key_alg: Seq<char>,
    outcome: Result<Seq<char>, AuthErrorView>,
) -> bool {
    &&& outcome matches Err(error) ==> error is InvalidCredential
    &&& key_alg != supported_algorithm() ==> outcome == Err::<Seq<char>, AuthErrorView>(
        AuthErrorView::InvalidCredential { reason: unsupported_algorithm_message() },
    )
}

/// The id of the key that signed `token`, read from the token's header. A
/// token whose header cannot be read, or names no key, is malformed.
pub fn key_id(token: &str) -> (id: Result<String, AuthError>)
    ensures
        outcome_view(id) == match token_key_id(token@) {
            Some(key_id) => Ok::<Seq<char>, AuthErrorView>(key_id),
            None => Err(AuthErrorView::MalformedCredential),
        },
{
    match decode_key_id(token) {
        Some(id) => Ok(id),
        None => Err(AuthError::MalformedCredential),
    }
}

/// Collapses the result of a verification to what a caller may know: the
/// subject, or `Unauthenticated`.
pub fn caller_verdict(outcome: Result<String, AuthError>) -> (verdict: Result<String, String>)
    ensures
        verdict_view(verdict) == verdict_of(outcome_view(outcome)),
{
    match outcome {
        Ok(subject) => Ok(subject),
        Err(_) => Err("Unauthenticated".to_string()),
    }
}

/// How far a verification has come.
#[derive(Debug)]
pub enum VerifyStep {
    /// It is over: the subject, or the reason for which there is none.
    Done(Result<String, AuthError>),
    /// The signing key is not cached. The caller fetches the key set, ends
    /// the fetch on the cache, and resumes.
    Fetch { key_id: String },
    /// The signing key is not cached and a fetch is under way. The caller
    /// waits for it to end, and resumes.
    Wait { key_id: String },
}

/// The credential verifier. It holds no state of its own but what it expects
/// of a credential; the keys live in a [`KeySetCache`] that its callers share.
#[derive(Debug)]
pub struct CredentialVerifier {
    /// The issuer that credentials must name; `None` where any issuer will do.
    pub expected_issuer: Option<String>,
}

impl CredentialVerifier {
    /// A verifier that expects the given issuer, if any.
    pub fn new(expected_issuer: Option<String>) -> (verifier: CredentialVerifier)
        ensures
            verifier.expected_issuer == expected_issuer,
    {
        CredentialVerifier { expected_issuer }
    }

    /// The issuer that credentials must name, if any.
    pub open spec fn issuer(&self) -> Option<Seq<char>> {
        match self.expected_issuer {
            Some(issuer) => Some(issuer@),
            None => None,
        }
    }

    /// Turns the result of a check into the result of the verification.
    pub fn credential_outcome(&self, checked: Result<Claims, ValidationFailure>) -> (outcome: Result<
        String,
        AuthError,
    >)
        ensures
            outcome_view(outcome) == outcome_of_check(checked_view(checked), self.issuer()),
    {
        match checked {
            Err(ValidationFailure::Unauthorized(reason)) => Err(
                AuthError::InvalidCredential { reason },
            ),
            Err(ValidationFailure::Internal(reason)) => Err(AuthError::InvalidCredential { reason }),
            Ok(claims) => {
                let accepted = match &self.expected_issuer {
                    Some(issuer) => *issuer == claims.issuer,
                    None => true,
                };
                if accepted {
                    Ok(claims.subject)
                } else {
                    Err(
                        AuthError::InvalidCredential {
                            reason: "Error: Invalid JWT! cause: InvalidIssuer".to_string(),
                        },
                    )
                }
            },
        }
    }

    /// Checks `token` against `key`: signature, validity period and, where one
    /// is expected, issuer. The result is the token's subject, or an invalid
    /// credential.
    pub fn validate(&self, token: &str, key: &SigningKey) -> (outcome: Result<String, AuthError>)
        ensures
            may_come_of_check(key.alg@, outcome_view(outcome)),
    {
        self.credential_outcome(validate_with_key(token, key))
    }

    /// Starts the verification of `token` and takes it as far as the cache
    /// allows.
    ///
    /// A malformed token is refused at once and the cache is not touched.
    /// Otherwise the token's key is looked up: with a cached key the token is
    /// checked and the verification is over; without one the caller is told to
    /// fetch, or to wait, as the cache decides.
    pub fn begin_verify(&self, cache: &mut KeySetCache, token: &str) -> (step: VerifyStep)
        ensures
            match token_key_id(token@) {
                None => {
                    &&& final(cache)@ == old(cache)@
                    &&& step matches VerifyStep::Done(outcome)
                    &&& outcome_view(outcome) == Err::<Seq<char>, AuthErrorView>(
                        AuthErrorView::MalformedCredential,
                    )
                },
                Some(id) => {
                    &&& final(cache)@ == requested(old(cache)@, id).0
                    &&& match requested(old(cache)@, id).1 {
                        LookupView::Hit(key) => {
                            &&& step matches VerifyStep::Done(outcome)
                            &&& may_come_of_check(key.alg, outcome_view(outcome))
                        },
                        LookupView::Fetch => step matches VerifyStep::Fetch { key_id } && key_id@
                            == id,
                        LookupView::Wait => step matches VerifyStep::Wait { key_id } && key_id@
                            == id,
                    }
                },
            },
    {
        match key_id(token) {
            Err(error) => VerifyStep::Done(Err(error)),
            Ok(key_id) => match cache.request(key_id.as_str()) {
                Lookup::Hit(key) => VerifyStep::Done(self.validate(token, &key)),
                Lookup::Fetch => VerifyStep::Fetch { key_id },
                Lookup::Wait => VerifyStep::Wait { key_id },
            },
        }
    }

    /// Goes on with a verification after the fetch that it needed has ended.
    ///
    /// Where the cache now holds the key, the token is checked against it.
    /// Otherwise the signing key is unknown, where a key set was fetched, or
    /// the provider is unavailable, where the fetch failed.
    pub fn resume_verify(
        &self,
        cache: &KeySetCache,
        token: &str,
        key_id: &str,
        fetch_succeeded: bool,
    ) -> (outcome: Result<String, AuthError>)
        ensures
            match resolved(cache@, key_id@, fetch_succeeded) {
                Ok(key) => may_come_of_check(key.alg, outcome_view(outcome)),
                Err(error) => outcome_view(outcome) == Err::<Seq<char>, AuthErrorView>(error),
            },
    {
        match cache.after_fetch(key_id, fetch_succeeded) {
            Ok(key) => self.validate(token, &key),
            Err(error) => Err(error),
        }
    }
}

/// Whatever makes a verification fail, the caller learns only that the
/// request is unauthenticated: the interceptor rejects the request with that
/// code and that message, and the reason goes no further.
pub proof fn lemma_every_failure_is_unauthenticated(
    headers: Map<Seq<char>, Seq<Seq<u8>>>,
    error: AuthErrorView,
)
    ensures
        verdict_of(Err(error)) == Err::<Seq<char>, Seq<char>>(unauthenticated_message()),
        intercepted(headers, verdict_of(Err(error))) == unauthenticated_rejection(),
        unauthenticated_rejection() == Err::<Map<Seq<char>, Seq<Seq<u8>>>, (Code, Seq<char>)>(
            (Code::Unauthenticated, unauthenticated_message()),
        ),
{
}

/// A token that fails its check, or names another issuer than the expected
/// one, never yields a subject.
pub proof fn lemma_failed_check_yields_no_subject(
    checked: Result<ClaimsView, Seq<char>>,
    expected_issuer: Option<Seq<char>>,
)
    requires
        checked is Err || (expected_issuer matches Some(issuer) && checked matches Ok(claims)
            && claims.issuer != issuer),
    ensures
        (outcome_of_check(checked, expected_issuer) matches Err(error) && error is InvalidCredential),
        verdict_of(outcome_of_check(checked, expected_issuer)) == Err::<Seq<char>, Seq<char>>(
            unauthenticated_message(),
        ),
{
}

/// A verification that yields a subject puts that subject, and nothing else,
/// under `user_id` of the request that goes on to the handler.
pub proof fn lemma_verified_subject_is_forwarded(
    headers: Map<Seq<char>, Seq<Seq<u8>>>,
    subject: Seq<char>,
)
    requires
        session_token(headers) is Some,
        is_header_value(encode_utf8(subject)),
    ensures
        (intercepted(headers, verdict_of(Ok(subject))) matches Ok(forwarded) && values_of(
            forwarded,
            user_id_header(),
        ) == seq![encode_utf8(subject)]),
{
}

} // verus!
