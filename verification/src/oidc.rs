//! OpenID Connect protocol errors and the authorization-request surface.

use vstd::prelude::*;

pub mod authorize;

verus! {

/// A protocol-level failure of the authorization flow.
#[derive(Debug, PartialEq, Eq)]
pub enum OidcError {
    AccessDenied,
    InvalidClient,
    InvalidRequest,
    InvalidScope,
    ServerError,
    TemporarilyUnavailable,
    UnauthorizedClient,
    UnsupportedResponseType,
    Unspecified(String),
}

impl OidcError {
    /// A human-readable description.
    pub fn message(&self) -> (r: String)
        ensures
            (match self {
                OidcError::AccessDenied => r@ == "Access denied"@,
                OidcError::InvalidClient => r@ == "Invalid client"@,
                OidcError::InvalidRequest => r@ == "Invalid grant"@,
                OidcError::InvalidScope => r@ == "Invalid scope"@,
                OidcError::ServerError => r@ == "Invalid token"@,
                OidcError::TemporarilyUnavailable => r@ == "Temporarily unavailable"@,
                OidcError::UnauthorizedClient => r@ == "Unauthorized client"@,
                OidcError::UnsupportedResponseType => r@ == "Unsupported grant type"@,
                OidcError::Unspecified(s) => r@ == "Unspecified error: "@ + s@,
            }),
    {
        match self {
            OidcError::AccessDenied => String::from_str("Access denied"),
            OidcError::InvalidClient => String::from_str("Invalid client"),
            OidcError::InvalidRequest => String::from_str("Invalid grant"),
            OidcError::InvalidScope => String::from_str("Invalid scope"),
            OidcError::ServerError => String::from_str("Invalid token"),
            OidcError::TemporarilyUnavailable => String::from_str("Temporarily unavailable"),
            OidcError::UnauthorizedClient => String::from_str("Unauthorized client"),
            OidcError::UnsupportedResponseType => String::from_str("Unsupported grant type"),
            OidcError::Unspecified(s) => String::from_str("Unspecified error: ").concat(s.as_str()),
        }
    }
}

} // verus!
