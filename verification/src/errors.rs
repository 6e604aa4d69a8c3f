//! The closed set of authentication failure kinds and the pure mapping
//! from each kind to its transport-facing outcome.
//!
//! Client-caused kinds surface with a precise, non-sensitive message and
//! status 401; server-side kinds surface with a generic message and
//! status 500, so that key and configuration detail is never echoed to
//! the caller.

use vstd::prelude::*;

verus! {

/// Failure kinds of the key directory cache.
#[derive(Debug, Clone, Copy, PartialEq, Eq, Structural)]
pub enum KeyDirectoryError {
    /// The key-source URL is absent from the configuration.
    SourceNotConfigured,
    /// The outbound fetch did not yield a success response.
    FetchFailed,
    /// The fetched payload was not a well-formed key-set document.
    ParseFailed,
}

/// Every failure mode of token extraction, verification and identity
/// resolution.
#[derive(Debug, Clone, PartialEq, Eq)]
pub enum AuthError {
    /// No authorization header was presented.
    MissingToken,
    /// The authorization header does not carry the bearer scheme.
    InvalidTokenFormat,
    /// The token cannot be decoded, its header lacks a key identifier,
    /// or its signature does not verify.
    MalformedToken,
    /// The token's `exp` claim lies in the past.
    Expired,
    /// A required claim is absent, mistyped, or does not match policy.
    ClaimInvalid { claim: String },
    /// No key in the current key set carries the token's key identifier.
    UnknownKey { kid: String },
    /// The key directory cache could not supply a key set.
    KeyDirectoryUnavailable { cause: KeyDirectoryError },
    /// The declared algorithm family does not pair with the resolved
    /// key's family.
    AlgorithmKeyMismatch,
    /// The resolved key's family is neither RSA nor shared-secret, or
    /// its material is unusable.
    UnsupportedKeyType,
    /// A required configuration value is absent.
    ConfigMissing { name: String },
}

/// Whether a failure kind is caller-correctable. Such kinds are
/// rejected as unauthenticated; all others are server-side failures
/// kept opaque to the caller.
pub open spec fn spec_is_client_error(e: AuthError) -> bool {
    match e {
        AuthError::MissingToken => true,
        AuthError::InvalidTokenFormat => true,
        AuthError::MalformedToken => true,
        AuthError::Expired => true,
        AuthError::ClaimInvalid { .. } => true,
        AuthError::UnknownKey { .. } => false,
        AuthError::KeyDirectoryUnavailable { .. } => false,
        AuthError::AlgorithmKeyMismatch => false,
        AuthError::UnsupportedKeyType => false,
        AuthError::ConfigMissing { .. } => false,
    }
}

impl AuthError {
    /// Whether this kind is caller-correctable.
    pub fn is_client_error(&self) -> (r: bool)
        ensures
            r == spec_is_client_error(*self),
    {
        match self {
            AuthError::MissingToken => true,
            AuthError::InvalidTokenFormat => true,
            AuthError::MalformedToken => true,
            AuthError::Expired => true,
            AuthError::ClaimInvalid { .. } => true,
            AuthError::UnknownKey { .. } => false,
            AuthError::KeyDirectoryUnavailable { .. } => false,
            AuthError::AlgorithmKeyMismatch => false,
            AuthError::UnsupportedKeyType => false,
            AuthError::ConfigMissing { .. } => false,
        }
    }

    /// The HTTP status of the rejection: 401 for caller-correctable
    /// kinds, 500 for server-side ones. Unknown-key and key-source
    /// failures are 500, not 401, since they are not caused by the
    /// caller's credentials.
    pub fn http_status(&self) -> (r: u16)
        ensures
            r == 401 <==> spec_is_client_error(*self),
            r == 401 || r == 500,
    {
        if self.is_client_error() {
            401
        } else {
            500
        }
    }

    /// The message surfaced to the caller. Client-caused kinds carry a
    /// precise, non-sensitive description; server-side kinds a generic
    /// one, with the detailed cause retained only in the error value
    /// itself for internal diagnostics.
    pub fn client_message(&self) -> (r: String)
        ensures
            *self is MissingToken ==> r@ == "Authorization token not found"@,
            *self is InvalidTokenFormat ==> r@ == "Invalid token format"@,
            *self is MalformedToken ==> r@ == "Token is invalid"@,
            *self is Expired ==> r@ == "Token has expired"@,
            *self matches AuthError::ClaimInvalid { claim } ==> r@ == "Token claim invalid: "@ + claim@,
            *self matches AuthError::UnknownKey { .. } ==> r@ == "Could not verify token (key not found)"@,
            *self matches AuthError::KeyDirectoryUnavailable { .. } ==> r@ == "Error processing signing keys"@,
            *self is AlgorithmKeyMismatch ==> r@ == "Internal server error"@,
            *self is UnsupportedKeyType ==> r@ == "Internal server error"@,
            *self matches AuthError::ConfigMissing { .. } ==> r@ == "Server configuration error for auth"@,
    {
        match self {
            AuthError::MissingToken => String::from_str("Authorization token not found"),
            AuthError::InvalidTokenFormat => String::from_str("Invalid token format"),
            AuthError::MalformedToken => String::from_str("Token is invalid"),
            AuthError::Expired => String::from_str("Token has expired"),
            AuthError::ClaimInvalid { claim } => {
                String::from_str("Token claim invalid: ").concat(claim.as_str())
            },
            AuthError::UnknownKey { .. } => String::from_str("Could not verify token (key not found)"),
            AuthError::KeyDirectoryUnavailable { .. } => String::from_str("Error processing signing keys"),
            AuthError::AlgorithmKeyMismatch => String::from_str("Internal server error"),
            AuthError::UnsupportedKeyType => String::from_str("Internal server error"),
            AuthError::ConfigMissing { .. } => String::from_str("Server configuration error for auth"),
        }
    }
}

} // verus!
