//! Why a credential is not accepted.

use crate::auth::unauthenticated_message;
use crate::status::{Code, Status};
use vstd::prelude::*;

verus! {

/// The reasons for which verification of a credential fails. A caller of the
/// gateway sees none of them: each is answered as unauthenticated.
#[derive(Debug)]
pub enum AuthError {
    /// The credential's header cannot be read, or names no signing key.
    MalformedCredential,
    /// The identity provider publishes no key under the credential's key id.
    UnknownSigningKey,
    /// Signature, validity period or issuer do not hold; `reason` says which,
    /// for the log.
    InvalidCredential { reason: String },
    /// The identity provider's keys could not be fetched.
    ProviderUnavailable,
}

/// The mathematical value of an [`AuthError`].
pub enum AuthErrorView {
    MalformedCredential,
    UnknownSigningKey,
    InvalidCredential { reason: Seq<char> },
    ProviderUnavailable,
}

impl View for AuthError {
    type V = AuthErrorView;

    open spec fn view(&self) -> AuthErrorView {
        match self {
            AuthError::MalformedCredential => AuthErrorView::MalformedCredential,
            AuthError::UnknownSigningKey => AuthErrorView::UnknownSigningKey,
            AuthError::InvalidCredential { reason } => AuthErrorView::InvalidCredential {
                reason: reason@,
            },
            AuthError::ProviderUnavailable => AuthErrorView::ProviderUnavailable,
        }
    }
}

impl AuthError {
    /// The status that a caller sees for this error: unauthenticated, with no
    /// word of the reason.
    pub fn status(&self) -> (status: Status)
        ensures
            status@ == (Code::Unauthenticated, unauthenticated_message()),
    {
        Status::unauthenticated("Unauthenticated".to_string())
    }
}

} // verus!
