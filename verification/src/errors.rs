//! The denial taxonomy and its mapping to HTTP status codes.

use vstd::prelude::*;

verus! {

/// Why verification or authorization failed.
#[derive(Debug, Clone, PartialEq, Eq)]
pub enum AuthError {
    /// No `Authorization` header, or not a bearer scheme.
    MissingToken,
    /// The token is not structurally a signed token.
    Malformed,
    /// The key identifier is not in the cache, even after a refresh.
    UnknownKey,
    /// The signature does not verify, or the algorithm is not allowed.
    InvalidSignature,
    /// The validity window has passed, beyond the skew tolerance.
    Expired,
    /// The issuer claim is not the configured issuer.
    IssuerMismatch,
    /// The audience sets do not intersect.
    AudienceMismatch,
    /// A required role, named here, is absent from the claim set.
    MissingRole(Vec<u8>),
    /// The key provider could not be reached and no usable keys are cached.
    KeyFetchFailed,
}

/// The mathematical shape of an `AuthError`.
pub enum ReasonV {
    MissingToken,
    Malformed,
    UnknownKey,
    InvalidSignature,
    Expired,
    IssuerMismatch,
    AudienceMismatch,
    MissingRole(Seq<u8>),
    KeyFetchFailed,
}

impl View for AuthError {
    type V = ReasonV;

    open spec fn view(&self) -> ReasonV {
        match self {
            AuthError::MissingToken => ReasonV::MissingToken,
            AuthError::Malformed => ReasonV::Malformed,
            AuthError::UnknownKey => ReasonV::UnknownKey,
            AuthError::InvalidSignature => ReasonV::InvalidSignature,
            AuthError::Expired => ReasonV::Expired,
            AuthError::IssuerMismatch => ReasonV::IssuerMismatch,
            AuthError::AudienceMismatch => ReasonV::AudienceMismatch,
            AuthError::MissingRole(r) => ReasonV::MissingRole(r@),
            AuthError::KeyFetchFailed => ReasonV::KeyFetchFailed,
        }
    }
}

/// The HTTP status a denial maps to: authorization failures are 403, an
/// unreachable key provider with no cached fallback is 503, and every
/// authentication failure is 401.
pub open spec fn spec_status(e: ReasonV) -> u16 {
    match e {
        ReasonV::MissingRole(_) => 403,
        ReasonV::AudienceMismatch => 403,
        ReasonV::KeyFetchFailed => 503,
        _ => 401,
    }
}

/// The HTTP status code for a denial reason.
pub fn deny_status(e: &AuthError) -> (s: u16)
    ensures
        s == spec_status(e@),
{
    match e {
        AuthError::MissingRole(_) => 403,
        AuthError::AudienceMismatch => 403,
        AuthError::KeyFetchFailed => 503,
        _ => 401,
    }
}

} // verus!
