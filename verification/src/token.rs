//! The token verifier: decodes a bearer token's header, resolves its
//! signing key from the key set, cross-checks the declared algorithm
//! against the key's family before any signature work, and hands the
//! cryptographic check to the JWT library with the issuer and audience
//! policy attached.
//!
//! Everything up to the signature check is verified against the model
//! of the key set; the signature and claim validation itself depends
//! on the wall clock and the cryptographic material, so its outcome is
//! taken as an input and classified by a verified function.

use vstd::prelude::*;

use base64::engine::general_purpose::URL_SAFE_NO_PAD;
use base64::Engine;
use serde_json::Value;

use crate::errors::AuthError;
use crate::errors::KeyDirectoryError;
use crate::identity::Claims;
use crate::keys::spec_lookup;
use crate::keys::KeyMaterial;
use crate::keys::KeySet;

verus! {

#[verifier::external_type_specification]
pub struct ExAlgorithm(jsonwebtoken::Algorithm);

#[verifier::external_type_specification]
#[verifier::external_body]
pub struct ExDecodingKey(jsonwebtoken::DecodingKey);

/// The two supported algorithm families, and everything else.
#[derive(Debug, Clone, Copy, PartialEq, Eq, Structural)]
pub enum AlgFamily {
    /// HMAC over a shared secret: HS256, HS384, HS512.
    Hmac,
    /// RSA signatures: RS256, RS384, RS512, PS256, PS384, PS512.
    Rsa,
    /// Any other family; never paired with a key here.
    Other,
}

/// What a token's decoded header declares: the signing algorithm and
/// the identifier of the key that should verify the signature.
#[derive(Debug)]
pub struct TokenHeader {
    /// The declared algorithm.
    pub alg: jsonwebtoken::Algorithm,
    /// The declared key identifier, when the header carries one.
    pub kid: Option<String>,
}

/// The family an algorithm belongs to.
pub open spec fn spec_alg_family(a: jsonwebtoken::Algorithm) -> AlgFamily {
    match a {
        jsonwebtoken::Algorithm::HS256 => AlgFamily::Hmac,
        jsonwebtoken::Algorithm::HS384 => AlgFamily::Hmac,
        jsonwebtoken::Algorithm::HS512 => AlgFamily::Hmac,
        jsonwebtoken::Algorithm::RS256 => AlgFamily::Rsa,
        jsonwebtoken::Algorithm::RS384 => AlgFamily::Rsa,
        jsonwebtoken::Algorithm::RS512 => AlgFamily::Rsa,
        jsonwebtoken::Algorithm::PS256 => AlgFamily::Rsa,
        jsonwebtoken::Algorithm::PS384 => AlgFamily::Rsa,
        jsonwebtoken::Algorithm::PS512 => AlgFamily::Rsa,
        jsonwebtoken::Algorithm::ES256 => AlgFamily::Other,
        jsonwebtoken::Algorithm::ES384 => AlgFamily::Other,
        jsonwebtoken::Algorithm::EdDSA => AlgFamily::Other,
    }
}

/// The family an algorithm belongs to.
pub fn alg_family(a: jsonwebtoken::Algorithm) -> (r: AlgFamily)
    ensures
        r == spec_alg_family(a),
{
    match a {
        jsonwebtoken::Algorithm::HS256 => AlgFamily::Hmac,
        jsonwebtoken::Algorithm::HS384 => AlgFamily::Hmac,
        jsonwebtoken::Algorithm::HS512 => AlgFamily::Hmac,
        jsonwebtoken::Algorithm::RS256 => AlgFamily::Rsa,
        jsonwebtoken::Algorithm::RS384 => AlgFamily::Rsa,
        jsonwebtoken::Algorithm::RS512 => AlgFamily::Rsa,
        jsonwebtoken::Algorithm::PS256 => AlgFamily::Rsa,
        jsonwebtoken::Algorithm::PS384 => AlgFamily::Rsa,
        jsonwebtoken::Algorithm::PS512 => AlgFamily::Rsa,
        jsonwebtoken::Algorithm::ES256 => AlgFamily::Other,
        jsonwebtoken::Algorithm::ES384 => AlgFamily::Other,
        jsonwebtoken::Algorithm::EdDSA => AlgFamily::Other,
    }
}

/// The family of a published key's material.
pub open spec fn spec_material_family(m: KeyMaterial) -> AlgFamily {
    match m {
        KeyMaterial::Rsa { .. } => AlgFamily::Rsa,
        KeyMaterial::Octet { .. } => AlgFamily::Hmac,
        KeyMaterial::Unsupported => AlgFamily::Other,
    }
}

/// The header a token string decodes to, when its first segment is a
/// well-formed JWT header; the result depends on the token alone.
pub uninterp spec fn spec_token_header(t: Seq<char>) -> Option<TokenHeader>;

/// Relies on jsonwebtoken::decode_header: a token of valid JWT shape
/// yields its decoded header's algorithm and key identifier; anything
/// else is rejected.
#[verifier::external_body]
fn decode_token_header(token: &str) -> (r: Option<TokenHeader>)
    ensures
        r == spec_token_header(token@),
{
    match jsonwebtoken::decode_header(token) {
        Ok(h) => Some(TokenHeader { alg: h.alg, kid: h.kid }),
        Err(_) => None,
    }
}

/// Relies on jsonwebtoken::DecodingKey::from_secret: builds the HMAC
/// verification key for a shared secret. Never fails.
#[verifier::external_body]
fn secret_decoding_key(secret: &Vec<u8>) -> jsonwebtoken::DecodingKey {
    jsonwebtoken::DecodingKey::from_secret(secret)
}

/// Relies on jsonwebtoken::DecodingKey::from_rsa_components: builds the
/// RSA verification key from the published base64url modulus and
/// exponent, and fails on material that does not decode.
#[verifier::external_body]
fn rsa_decoding_key(n: &str, e: &str) -> Option<jsonwebtoken::DecodingKey> {
    jsonwebtoken::DecodingKey::from_rsa_components(n, e).ok()
}

/// What the cryptographic check reported, reduced to the cases the
/// gateway distinguishes.
#[derive(Debug)]
pub enum DecodeOutcome {
    /// Signature and policy checks passed; the claims are then read
    /// from the token's payload.
    Valid,
    /// The token's `exp` lies in the past.
    Expired,
    /// The `iss` claim does not match the required issuer.
    BadIssuer,
    /// The `aud` claim does not match the required audience.
    BadAudience,
    /// A required claim is absent.
    MissingClaim(String),
    /// The token, its signature, or the key material is invalid.
    Invalid,
}

/// The claims record carried by a token's payload: the six claims the
/// identity is built from, each read as absent when missing or not of
/// the expected type. A function of the token text alone, since the
/// payload is deserialized from the token's second segment.
pub uninterp spec fn spec_token_claims(t: Seq<char>) -> Claims;

/// Relies on base64's URL-safe alphabet and serde_json, the same
/// decoding the signature check applies to the payload segment: reads
/// the six claims the identity is built from, each absent when
/// missing or not of the expected type. Never fails, and the result
/// depends on the token text alone.
#[verifier::external_body]
fn read_token_claims(token: &str) -> (c: Claims)
    ensures
        c == spec_token_claims(token@),
{
    let seg = token.split('.').nth(1).unwrap_or("");
    let bytes = URL_SAFE_NO_PAD.decode(seg).unwrap_or_default();
    let v: Value = serde_json::from_slice(&bytes).unwrap_or(Value::Null);
    Claims {
        sub: v.get("sub").and_then(Value::as_str).map(str::to_string),
        email: v.get("email").and_then(Value::as_str).map(str::to_string),
        role: v.get("role").and_then(Value::as_str).map(str::to_string),
        app_metadata_role: v.get("app_metadata").and_then(|m| m.get("role")).and_then(
            Value::as_str,
        ).map(str::to_string),
        iat: v.get("iat").and_then(Value::as_i64),
        exp: v.get("exp").and_then(Value::as_i64),
    }
}

/// Relies on jsonwebtoken::decode with serde_json claims: verifies the
/// token's signature against the given key for the allowed algorithms,
/// and enforces expiry (with the library's default leeway) and the
/// required issuer and audience, all three claims being required. The
/// outcome depends on the wall clock, so nothing relates it to the
/// arguments; the caller classifies whatever comes back.
#[verifier::external_body]
fn decode_and_validate(
    token: &str,
    key: &jsonwebtoken::DecodingKey,
    algs: &Vec<jsonwebtoken::Algorithm>,
    iss: &str,
    aud: &str,
) -> DecodeOutcome {
    let mut validation = jsonwebtoken::Validation::new(jsonwebtoken::Algorithm::HS256);
    validation.algorithms = algs.clone();
    validation.set_issuer(&[iss]);
    validation.set_audience(&[aud]);
    validation.set_required_spec_claims(&["exp", "iss", "aud"]);
    match jsonwebtoken::decode::<serde_json::Value>(token, key, &validation) {
        Ok(_) => DecodeOutcome::Valid,
        Err(e) => match e.into_kind() {
            jsonwebtoken::errors::ErrorKind::ExpiredSignature => DecodeOutcome::Expired,
            jsonwebtoken::errors::ErrorKind::InvalidIssuer => DecodeOutcome::BadIssuer,
            jsonwebtoken::errors::ErrorKind::InvalidAudience => DecodeOutcome::BadAudience,
            jsonwebtoken::errors::ErrorKind::MissingRequiredClaim(c) => DecodeOutcome::MissingClaim(c),
            _ => DecodeOutcome::Invalid,
        },
    }
}

/// The validation set handed to the cryptographic check: every
/// algorithm of the resolved key's family.
fn family_algorithms(family: AlgFamily) -> (r: Vec<jsonwebtoken::Algorithm>)
    requires
        !(family is Other),
    ensures
        family is Hmac ==> r@ =~= seq![
            jsonwebtoken::Algorithm::HS256,
            jsonwebtoken::Algorithm::HS384,
            jsonwebtoken::Algorithm::HS512,
        ],
        family is Rsa ==> r@ =~= seq![
            jsonwebtoken::Algorithm::RS256,
            jsonwebtoken::Algorithm::RS384,
            jsonwebtoken::Algorithm::RS512,
            jsonwebtoken::Algorithm::PS256,
            jsonwebtoken::Algorithm::PS384,
            jsonwebtoken::Algorithm::PS512,
        ],
{
    let mut v: Vec<jsonwebtoken::Algorithm> = Vec::new();
    match family {
        AlgFamily::Hmac => {
            v.push(jsonwebtoken::Algorithm::HS256);
            v.push(jsonwebtoken::Algorithm::HS384);
            v.push(jsonwebtoken::Algorithm::HS512);
        },
        AlgFamily::Rsa => {
            v.push(jsonwebtoken::Algorithm::RS256);
            v.push(jsonwebtoken::Algorithm::RS384);
            v.push(jsonwebtoken::Algorithm::RS512);
            v.push(jsonwebtoken::Algorithm::PS256);
            v.push(jsonwebtoken::Algorithm::PS384);
            v.push(jsonwebtoken::Algorithm::PS512);
        },
        AlgFamily::Other => {},
    }
    v
}

/// What can come out of the step that only the cryptographic check
/// decides: verified claims, or one of the failures that check can
/// report; on success, the claims are exactly the token's own payload.
pub open spec fn spec_crypto_envelope(t: Seq<char>, r: Result<Claims, AuthError>) -> bool {
    ||| r == Ok::<Claims, AuthError>(spec_token_claims(t))
    ||| r == Err::<Claims, AuthError>(AuthError::Expired)
    ||| r == Err::<Claims, AuthError>(AuthError::MalformedToken)
    ||| r == Err::<Claims, AuthError>(AuthError::UnsupportedKeyType)
    ||| r matches Err(AuthError::ClaimInvalid { .. })
}

/// Classifies the outcome of the cryptographic check into the error
/// taxonomy. An expired token is reported as expired whatever else
/// holds of it; issuer and audience mismatches name the claim at
/// fault; a passing token yields exactly the claims its own payload
/// carries.
pub fn interpret_outcome(token: &str, o: DecodeOutcome) -> (r: Result<Claims, AuthError>)
    ensures
        o is Expired ==> r == Err::<Claims, AuthError>(AuthError::Expired),
        o is BadIssuer ==> (r matches Err(AuthError::ClaimInvalid { claim }) && claim@ == "iss"@),
        o is BadAudience ==> (r matches Err(AuthError::ClaimInvalid { claim }) && claim@
            == "aud"@),
        o matches DecodeOutcome::MissingClaim(c) ==> (r matches Err(
            AuthError::ClaimInvalid { claim },
        ) && claim == c),
        o is Invalid ==> r == Err::<Claims, AuthError>(AuthError::MalformedToken),
        o is Valid ==> r == Ok::<Claims, AuthError>(spec_token_claims(token@)),
        r is Ok <==> o is Valid,
{
    match o {
        DecodeOutcome::Valid => Ok(read_token_claims(token)),
        DecodeOutcome::Expired => Err(AuthError::Expired),
        DecodeOutcome::BadIssuer => Err(
            AuthError::ClaimInvalid { claim: String::from_str("iss") },
        ),
        DecodeOutcome::BadAudience => Err(
            AuthError::ClaimInvalid { claim: String::from_str("aud") },
        ),
        DecodeOutcome::MissingClaim(c) => Err(AuthError::ClaimInvalid { claim: c }),
        DecodeOutcome::Invalid => Err(AuthError::MalformedToken),
    }
}

/// Where verification of a token stops, as decided by everything but
/// the cryptographic check itself.
pub enum VerifyStage {
    /// The token or its header cannot be decoded, or the header lacks
    /// a key identifier.
    RejectMalformed,
    /// The key directory could not supply a key set.
    RejectDirectory(KeyDirectoryError),
    /// No key of the set carries the token's key identifier.
    RejectUnknownKey(String),
    /// The resolved key's family is unsupported.
    RejectUnsupported,
    /// The declared algorithm does not pair with the resolved key's
    /// family.
    RejectMismatch,
    /// The required issuer is not configured.
    RejectNoIssuerConfig,
    /// The required audience is not configured.
    RejectNoAudienceConfig,
    /// All pre-checks passed; the cryptographic check decides.
    Crypto,
}

/// The stage verification reaches on a token, given the key directory
/// result and which policy values are configured. Each pre-check
/// short-circuits in this order: header shape, key identifier, key
/// directory, key lookup, key family and algorithm cross-check,
/// issuer configuration, audience configuration.
pub open spec fn spec_verify_stage(
    t: Seq<char>,
    keys: Result<&KeySet, KeyDirectoryError>,
    have_iss: bool,
    have_aud: bool,
) -> VerifyStage {
    match spec_token_header(t) {
        None => VerifyStage::RejectMalformed,
        Some(h) => match h.kid {
            None => VerifyStage::RejectMalformed,
            Some(kid) => match keys {
                Err(e) => VerifyStage::RejectDirectory(e),
                Ok(ks) => match spec_lookup(ks.keys@, kid@) {
                    None => VerifyStage::RejectUnknownKey(kid),
                    Some(k) => if spec_material_family(k.material) is Other {
                        VerifyStage::RejectUnsupported
                    } else if spec_material_family(k.material) != spec_alg_family(h.alg) {
                        VerifyStage::RejectMismatch
                    } else if !have_iss {
                        VerifyStage::RejectNoIssuerConfig
                    } else if !have_aud {
                        VerifyStage::RejectNoAudienceConfig
                    } else {
                        VerifyStage::Crypto
                    },
                },
            },
        },
    }
}

/// Decodes a token's header and requires a key identifier: the first
/// two steps of verification, with no cryptographic work.
pub fn token_header(token: &str) -> (r: Result<TokenHeader, AuthError>)
    ensures
        match spec_token_header(token@) {
            None => r == Err::<TokenHeader, AuthError>(AuthError::MalformedToken),
            Some(h) => if h.kid is Some {
                r == Ok::<TokenHeader, AuthError>(h)
            } else {
                r == Err::<TokenHeader, AuthError>(AuthError::MalformedToken)
            },
        },
{
    match decode_token_header(token) {
        None => Err(AuthError::MalformedToken),
        Some(h) => {
            if h.kid.is_some() {
                Ok(h)
            } else {
                Err(AuthError::MalformedToken)
            }
        },
    }
}

/// Verifies a bearer token against the key directory result and the
/// required issuer and audience: decodes the header, requires a key
/// identifier, resolves the key, cross-checks the algorithm family
/// before any signature work, and only then runs the cryptographic
/// check, whose outcome is classified by `interpret_outcome`.
pub fn verify_token(
    token: &str,
    keys: Result<&KeySet, KeyDirectoryError>,
    issuer: &Option<String>,
    audience: &Option<String>,
) -> (r: Result<Claims, AuthError>)
    ensures
        match spec_verify_stage(token@, keys, issuer is Some, audience is Some) {
            VerifyStage::RejectMalformed => r == Err::<Claims, AuthError>(
                AuthError::MalformedToken,
            ),
            VerifyStage::RejectDirectory(e) => r == Err::<Claims, AuthError>(
                AuthError::KeyDirectoryUnavailable { cause: e },
            ),
            VerifyStage::RejectUnknownKey(kid) => r == Err::<Claims, AuthError>(
                AuthError::UnknownKey { kid },
            ),
            VerifyStage::RejectUnsupported => r == Err::<Claims, AuthError>(
                AuthError::UnsupportedKeyType,
            ),
            VerifyStage::RejectMismatch => r == Err::<Claims, AuthError>(
                AuthError::AlgorithmKeyMismatch,
            ),
            VerifyStage::RejectNoIssuerConfig => (r matches Err(AuthError::ConfigMissing { name })
                && name@ == "SUPABASE_JWT_ISS"@),
            VerifyStage::RejectNoAudienceConfig => (r matches Err(
                AuthError::ConfigMissing { name },
            ) && name@ == "SUPABASE_JWT_AUD"@),
            VerifyStage::Crypto => spec_crypto_envelope(token@, r),
        },
{
    let header = match token_header(token) {
        Err(e) => {
            return Err(e);
        },
        Ok(h) => h,
    };
    let kid = match header.kid {
        None => {
            return Err(AuthError::MalformedToken);
        },
        Some(k) => k,
    };
    let key_set = match keys {
        Err(e) => {
            return Err(AuthError::KeyDirectoryUnavailable { cause: e });
        },
        Ok(ks) => ks,
    };
    let key = match key_set.find(&kid) {
        None => {
            return Err(AuthError::UnknownKey { kid });
        },
        Some(k) => k,
    };
    let family = match &key.material {
        KeyMaterial::Rsa { .. } => AlgFamily::Rsa,
        KeyMaterial::Octet { .. } => AlgFamily::Hmac,
        KeyMaterial::Unsupported => {
            return Err(AuthError::UnsupportedKeyType);
        },
    };
    if family != alg_family(header.alg) {
        return Err(AuthError::AlgorithmKeyMismatch);
    }
    let iss = match issuer {
        None => {
            return Err(AuthError::ConfigMissing { name: String::from_str("SUPABASE_JWT_ISS") });
        },
        Some(s) => s,
    };
    let aud = match audience {
        None => {
            return Err(AuthError::ConfigMissing { name: String::from_str("SUPABASE_JWT_AUD") });
        },
        Some(s) => s,
    };
    let decoding_key = match &key.material {
        KeyMaterial::Rsa { n, e } => {
            match rsa_decoding_key(n.as_str(), e.as_str()) {
                None => {
                    return Err(AuthError::UnsupportedKeyType);
                },
                Some(dk) => dk,
            }
        },
        KeyMaterial::Octet { secret } => secret_decoding_key(secret),
        KeyMaterial::Unsupported => {
            return Err(AuthError::UnsupportedKeyType);
        },
    };
    let algs = family_algorithms(family);
    let outcome = decode_and_validate(token, &decoding_key, &algs, iss.as_str(), aud.as_str());
    interpret_outcome(token, outcome)
}

} // verus!
