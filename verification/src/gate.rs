//! The auth gate: extracts the bearer token from the authorization
//! header and runs the verification pipeline, yielding either a typed
//! identity to attach to the request or the failure that rejects it.
//! Failure short-circuits at every step; no partial identity is ever
//! produced.

use vstd::prelude::*;

use crate::errors::AuthError;
use crate::errors::KeyDirectoryError;
use crate::identity::resolve_identity;
use crate::identity::spec_claims_complete;
use crate::identity::spec_resolved_user;
use crate::identity::AuthUser;
use crate::keys::KeySet;
use crate::token::spec_token_claims;
use crate::token::spec_verify_stage;
use crate::token::verify_token;
use crate::token::VerifyStage;

verus! {

/// The token carried by an authorization header value: everything
/// after the bearer scheme prefix, when the value starts with it.
pub open spec fn spec_bearer_token(h: Seq<char>) -> Option<Seq<char>> {
    if h.len() >= 7 && h.subrange(0, 7) == "Bearer "@ {
        Some(h.skip(7))
    } else {
        None
    }
}

/// Extracts the bearer token from the authorization header: an absent
/// header is a missing token, a present one without the bearer scheme
/// is an invalid format, and otherwise the token is what follows the
/// scheme.
pub fn extract_bearer(header: Option<&String>) -> (r: Result<String, AuthError>)
    ensures
        header is None ==> r == Err::<String, AuthError>(AuthError::MissingToken),
        header matches Some(h) ==> match spec_bearer_token(h@) {
            Some(t) => (r matches Ok(tok) && tok@ == t),
            None => r == Err::<String, AuthError>(AuthError::InvalidTokenFormat),
        },
{
    let h = match header {
        None => {
            return Err(AuthError::MissingToken);
        },
        Some(h) => h,
    };
    let s = h.as_str();
    let n = s.unicode_len();
    if n < 7 {
        return Err(AuthError::InvalidTokenFormat);
    }
    let prefix = s.substring_char(0, 7);
    if prefix.to_owned() == String::from_str("Bearer ") {
        let token = s.substring_char(7, n);
        proof {
            assert(token@ =~= h@.skip(7));
        }
        Ok(token.to_owned())
    } else {
        Err(AuthError::InvalidTokenFormat)
    }
}

/// What the steps after the cryptographic check can yield: the
/// identity resolved from the token's own claims — its id the token's
/// `sub`, its role the fail-safe derivation — or one of the failures
/// that the check or the resolver can report.
pub open spec fn spec_auth_envelope(t: Seq<char>, r: Result<AuthUser, AuthError>) -> bool {
    ||| (spec_claims_complete(spec_token_claims(t)) && r == Ok::<AuthUser, AuthError>(
        spec_resolved_user(spec_token_claims(t)),
    ))
    ||| r == Err::<AuthUser, AuthError>(AuthError::Expired)
    ||| r == Err::<AuthUser, AuthError>(AuthError::MalformedToken)
    ||| r == Err::<AuthUser, AuthError>(AuthError::UnsupportedKeyType)
    ||| r matches Err(AuthError::ClaimInvalid { .. })
}

/// Runs the whole gate for one request: extract the bearer token,
/// verify it against the key directory result and the required issuer
/// and audience, and resolve the verified claims into the typed
/// identity. Every failure is one of the closed error kinds, produced
/// at the first step that rejects.
pub fn authenticate(
    header: Option<&String>,
    keys: Result<&KeySet, KeyDirectoryError>,
    issuer: &Option<String>,
    audience: &Option<String>,
) -> (r: Result<AuthUser, AuthError>)
    ensures
        header is None ==> r == Err::<AuthUser, AuthError>(AuthError::MissingToken),
        header matches Some(h) ==> match spec_bearer_token(h@) {
            None => r == Err::<AuthUser, AuthError>(AuthError::InvalidTokenFormat),
            Some(t) => match spec_verify_stage(t, keys, issuer is Some, audience is Some) {
                VerifyStage::RejectMalformed => r == Err::<AuthUser, AuthError>(
                    AuthError::MalformedToken,
                ),
                VerifyStage::RejectDirectory(e) => r == Err::<AuthUser, AuthError>(
                    AuthError::KeyDirectoryUnavailable { cause: e },
                ),
                VerifyStage::RejectUnknownKey(kid) => r == Err::<AuthUser, AuthError>(
                    AuthError::UnknownKey { kid },
                ),
                VerifyStage::RejectUnsupported => r == Err::<AuthUser, AuthError>(
                    AuthError::UnsupportedKeyType,
                ),
                VerifyStage::RejectMismatch => r == Err::<AuthUser, AuthError>(
                    AuthError::AlgorithmKeyMismatch,
                ),
                VerifyStage::RejectNoIssuerConfig => (r matches Err(
                    AuthError::ConfigMissing { name },
                ) && name@ == "SUPABASE_JWT_ISS"@),
                VerifyStage::RejectNoAudienceConfig => (r matches Err(
                    AuthError::ConfigMissing { name },
                ) && name@ == "SUPABASE_JWT_AUD"@),
                VerifyStage::Crypto => spec_auth_envelope(t, r),
            },
        },
{
    let token = match extract_bearer(header) {
        Err(e) => {
            return Err(e);
        },
        Ok(t) => t,
    };
    let claims = match verify_token(token.as_str(), keys, issuer, audience) {
        Err(e) => {
            return Err(e);
        },
        Ok(c) => c,
    };
    resolve_identity(claims)
}

} // verus!
