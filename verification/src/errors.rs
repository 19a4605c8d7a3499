//! The error taxonomy of the client core.
//!
//! Discovery failures are fatal at construction; token-acquisition failures
//! are surfaced to the caller with the cache left untouched; call failures
//! tell the caller whether authentication or the remote call itself failed.
use vstd::prelude::*;

verus! {

/// A failure while fetching or interpreting the identity provider's
/// discovery document, or while validating the endpoint URLs it names.
#[derive(Clone, Copy, Debug, PartialEq, Eq, Structural)]
pub enum DiscoveryError {
    /// The HTTP request for the discovery document failed (network error or
    /// non-success status).
    RequestFailed,
    /// The response body was not the expected JSON shape (missing or
    /// malformed fields).
    MalformedDocument,
    /// The advertised authorization endpoint is not a parsable URL.
    InvalidAuthorizationEndpoint,
    /// The advertised token endpoint is not a parsable URL.
    InvalidTokenEndpoint,
}

/// A failure of the client-credentials grant: the token-endpoint request
/// failed or its response could not be interpreted.
#[derive(Clone, Debug)]
pub struct TokenAcquisitionError {
    /// A description of the underlying transport, parse, or grant failure.
    pub message: String,
}

/// A failure of an outbound authenticated call.
#[derive(Clone, Debug)]
pub enum CallError {
    /// Acquiring an access token failed; the request was never sent.
    TokenAcquisition(TokenAcquisitionError),
    /// The underlying transport failed after the request was sent.
    Transport(String),
}

impl CallError {
    /// Whether the failure originated in authentication rather than in the
    /// remote call, so callers can tell "fix credentials" from "remote
    /// service issue".
    pub fn is_authentication_failure(&self) -> (r: bool)
        ensures
            r == (self is TokenAcquisition),
    {
        match self {
            CallError::TokenAcquisition(_) => true,
            CallError::Transport(_) => false,
        }
    }
}

} // verus!
