//! Two-layer error model.
//!
//! Internally every failure of authentication or of the login flow is a tagged
//! [`AuthError`] that records the exact cause. At the boundary a single total
//! function, [`externalize`], collapses each cause to the generic outcome the
//! client sees, so that no client-visible difference reveals which check
//! failed.

use vstd::prelude::*;

use crate::token::TokenError;

verus! {

/// The exact internal cause of an authentication failure.
#[derive(Debug, Clone, Copy, PartialEq, Eq, Structural)]
pub enum AuthError {
    /// The request input (login body) could not be read as credentials.
    MalformedCredentialInput,
    /// No authorization credential was presented on a protected request.
    MissingCredential,
    /// An authorization credential was presented but is not a bearer token.
    MalformedCredential,
    /// The bearer token failed to decode; the codec's verdict is kept.
    InvalidToken(TokenError),
    /// The email/password pair does not belong to a stored account.
    InvalidCredentials,
    /// The identity the credential refers to is not in storage.
    IdentityNotFound,
    /// An unexpected fault in the hashing or signing primitives.
    HashingFailure,
    /// The identity store could not be reached.
    StorageFailure,
}

/// The generic outcome a client is shown.
#[derive(Debug, Clone, Copy, PartialEq, Eq, Structural)]
pub enum ExternalOutcome {
    /// The request itself was unreadable.
    BadRequest,
    /// Authentication failed; no further detail is disclosed.
    Unauthorized,
    /// An internal fault unrelated to the presented credentials.
    ServerError,
}

/// The total map from internal causes to client-visible outcomes.
///
/// Every credential-related failure—wrong password, unknown email, missing,
/// malformed, tampered or expired token, unreachable identity store—collapses
/// to the same `Unauthorized` outcome.
pub open spec fn external_of(e: AuthError) -> ExternalOutcome {
    match e {
        AuthError::MalformedCredentialInput => ExternalOutcome::BadRequest,
        AuthError::HashingFailure => ExternalOutcome::ServerError,
        _ => ExternalOutcome::Unauthorized,
    }
}

impl ExternalOutcome {
    /// The HTTP status code conventionally attached to this outcome.
    pub fn status_code(&self) -> (r: u16)
        ensures
            r == 400 <==> *self is BadRequest,
            r == 401 <==> *self is Unauthorized,
            r == 500 <==> *self is ServerError,
    {
        match self {
            ExternalOutcome::BadRequest => 400,
            ExternalOutcome::Unauthorized => 401,
            ExternalOutcome::ServerError => 500,
        }
    }

    /// The generic message body attached to this outcome; deliberately the
    /// same for every authentication failure.
    pub fn message(&self) -> (r: &'static str)
        ensures
            *self is BadRequest ==> r@ == "bad request"@,
            *self is Unauthorized ==> r@ == "unauthorized"@,
            *self is ServerError ==> r@ == "internal error"@,
    {
        match self {
            ExternalOutcome::BadRequest => "bad request",
            ExternalOutcome::Unauthorized => "unauthorized",
            ExternalOutcome::ServerError => "internal error",
        }
    }
}

/// Collapse an internal failure to the outcome the client is shown.
pub fn externalize(e: &AuthError) -> (r: ExternalOutcome)
    ensures
        r == external_of(*e),
{
    match e {
        AuthError::MalformedCredentialInput => ExternalOutcome::BadRequest,
        AuthError::HashingFailure => ExternalOutcome::ServerError,
        _ => ExternalOutcome::Unauthorized,
    }
}

/// A login attempt against an unknown email and one against a known email
/// with a wrong password are indistinguishable to the client: both collapse
/// to the identical external outcome, so the response leaks no information
/// about which accounts exist.
pub proof fn lemma_rejections_indistinguishable()
    ensures
        external_of(AuthError::IdentityNotFound) == external_of(AuthError::InvalidCredentials),
        external_of(AuthError::IdentityNotFound) == ExternalOutcome::Unauthorized,
{
}

} // verus!
