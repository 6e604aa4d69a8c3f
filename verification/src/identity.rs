//! User roles, the schema-checked claims record, and the typed identity
//! derived from it by the identity resolver.

use vstd::prelude::*;

use crate::errors::AuthError;

verus! {

/// A user's role in the system. Unrecognized role strings never map to
/// an elevated role; the fail-safe default is `User`.
#[derive(Debug, Clone, Copy, PartialEq, Eq, Structural)]
pub enum UserRole {
    User,
    Premium,
    Admin,
}

impl Default for UserRole {
    fn default() -> (r: Self)
        ensures
            r == UserRole::User,
    {
        UserRole::User
    }
}

/// The lower-case name of a role, as it appears in claims and in
/// responses.
pub open spec fn spec_role_name(r: UserRole) -> Seq<char> {
    match r {
        UserRole::User => "user"@,
        UserRole::Premium => "premium"@,
        UserRole::Admin => "admin"@,
    }
}

impl UserRole {
    /// The lower-case name of the role, as it appears in claims and
    /// in responses.
    pub fn as_str(&self) -> (r: &'static str)
        ensures
            r@ == spec_role_name(*self),
    {
        match self {
            UserRole::User => "user",
            UserRole::Premium => "premium",
            UserRole::Admin => "admin",
        }
    }
}

/// The claims of a verified token, read into typed optional fields.
/// A field is `None` where the claim is absent or not of the expected
/// type; telling those apart is not needed, since both are rejected the
/// same way.
#[derive(Debug, Clone, PartialEq, Eq)]
pub struct Claims {
    /// Claim `sub`: the opaque subject identifier.
    pub sub: Option<String>,
    /// Claim `email`, when present and string-typed.
    pub email: Option<String>,
    /// Top-level claim `role`, when present and string-typed.
    pub role: Option<String>,
    /// Nested claim `app_metadata.role`, when present and string-typed.
    pub app_metadata_role: Option<String>,
    /// Claim `iat`: seconds since epoch at which the token was issued.
    pub iat: Option<i64>,
    /// Claim `exp`: seconds since epoch at which the token expires.
    pub exp: Option<i64>,
}

/// The resolved identity of an authenticated request, trusted by
/// downstream handlers without re-validating cryptographic material.
#[derive(Debug, Clone, PartialEq, Eq)]
pub struct AuthUser {
    /// The opaque user identifier, from claim `sub`.
    pub id: String,
    /// The user's email address, when the token carried one.
    pub email: Option<String>,
    /// The derived role.
    pub role: UserRole,
    /// When the token was issued (seconds since epoch).
    pub iat: i64,
    /// When the token expires (seconds since epoch).
    pub exp: i64,
}

/// The role a recognized role string maps to. Only `"admin"` and
/// `"premium"` are recognized; every other string maps to nothing.
pub open spec fn spec_recognized_role(s: Seq<char>) -> Option<UserRole> {
    if s == "admin"@ {
        Some(UserRole::Admin)
    } else if s == "premium"@ {
        Some(UserRole::Premium)
    } else {
        None
    }
}

/// Role derivation policy: the top-level `role` claim when recognized,
/// else the nested `app_metadata.role` claim when recognized, else the
/// fail-safe default `User`.
pub open spec fn spec_role_of(top: Option<String>, nested: Option<String>) -> UserRole {
    let from_top = match top {
        Some(s) => spec_recognized_role(s@),
        None => None,
    };
    let from_nested = match nested {
        Some(s) => spec_recognized_role(s@),
        None => None,
    };
    match from_top {
        Some(r) => r,
        None => match from_nested {
            Some(r) => r,
            None => UserRole::User,
        },
    }
}

/// Maps a role claim string to a role, when it is recognized.
fn recognize_role(s: &Option<String>) -> (r: Option<UserRole>)
    ensures
        r == match *s {
            Some(x) => spec_recognized_role(x@),
            None => None::<UserRole>,
        },
{
    match s {
        None => None,
        Some(x) => {
            if *x == String::from_str("admin") {
                Some(UserRole::Admin)
            } else if *x == String::from_str("premium") {
                Some(UserRole::Premium)
            } else {
                None
            }
        },
    }
}

/// Derives the role granted by a pair of role claims, per the
/// fail-safe policy of `spec_role_of`.
pub fn role_of(top: &Option<String>, nested: &Option<String>) -> (r: UserRole)
    ensures
        r == spec_role_of(*top, *nested),
{
    match recognize_role(top) {
        Some(r) => r,
        None => match recognize_role(nested) {
            Some(r) => r,
            None => UserRole::User,
        },
    }
}

/// Unrecognized role strings never grant an elevated role: a derivation
/// yields `Admin` or `Premium` only when one of the two role claims is
/// literally that role's name.
pub proof fn lemma_role_derivation_fail_safe(top: Option<String>, nested: Option<String>)
    ensures
        spec_role_of(top, nested) == UserRole::Admin ==> (top is Some && top->0@ == "admin"@)
            || (nested is Some && nested->0@ == "admin"@),
        spec_role_of(top, nested) == UserRole::Premium ==> (top is Some && top->0@
            == "premium"@) || (nested is Some && nested->0@ == "premium"@),
{
}

/// Whether a claims record carries everything the identity requires:
/// a non-empty `sub` and integer `iat` and `exp`.
pub open spec fn spec_claims_complete(c: Claims) -> bool {
    &&& c.sub is Some
    &&& c.sub->0@.len() > 0
    &&& c.iat is Some
    &&& c.exp is Some
}

/// The identity resolved from a complete claims record.
pub open spec fn spec_resolved_user(c: Claims) -> AuthUser {
    AuthUser {
        id: c.sub->0,
        email: c.email,
        role: spec_role_of(c.role, c.app_metadata_role),
        iat: c.iat->0,
        exp: c.exp->0,
    }
}

/// The claim an incomplete claims record is rejected for: the first of
/// `sub`, `iat`, `exp` that is absent or invalid.
pub open spec fn spec_failed_claim(c: Claims) -> Seq<char> {
    if c.sub is None || c.sub->0@.len() == 0 {
        "sub"@
    } else if c.iat is None {
        "iat"@
    } else {
        "exp"@
    }
}

/// The resolved identity never invents a field: for any complete
/// claims record, its id is exactly the `sub` claim, its email and
/// lifetime stamps are exactly the corresponding claims, and its role
/// is exactly the fail-safe derivation of the two role claims.
pub proof fn lemma_resolved_identity_reflects_claims(c: Claims)
    requires
        spec_claims_complete(c),
    ensures
        spec_resolved_user(c).id == c.sub->0,
        spec_resolved_user(c).email == c.email,
        spec_resolved_user(c).iat == c.iat->0,
        spec_resolved_user(c).exp == c.exp->0,
        spec_resolved_user(c).role == spec_role_of(c.role, c.app_metadata_role),
{
}

/// Maps a verified claims record to the typed identity: `sub` is
/// required non-empty, `iat` and `exp` are required integers, `email`
/// is optional, and the role follows the fail-safe derivation policy.
/// A pure transformation with no side effects.
pub fn resolve_identity(claims: Claims) -> (r: Result<AuthUser, AuthError>)
    ensures
        spec_claims_complete(claims) ==> r == Ok::<AuthUser, AuthError>(spec_resolved_user(claims)),
        !spec_claims_complete(claims) ==> (r matches Err(AuthError::ClaimInvalid { claim })
            && claim@ == spec_failed_claim(claims)),
{
    let role = role_of(&claims.role, &claims.app_metadata_role);
    let sub = match claims.sub {
        None => {
            return Err(AuthError::ClaimInvalid { claim: String::from_str("sub") });
        },
        Some(s) => s,
    };
    if sub.as_str().unicode_len() == 0 {
        return Err(AuthError::ClaimInvalid { claim: String::from_str("sub") });
    }
    let iat = match claims.iat {
        None => {
            return Err(AuthError::ClaimInvalid { claim: String::from_str("iat") });
        },
        Some(v) => v,
    };
    let exp = match claims.exp {
        None => {
            return Err(AuthError::ClaimInvalid { claim: String::from_str("exp") });
        },
        Some(v) => v,
    };
    Ok(AuthUser { id: sub, email: claims.email, role, iat, exp })
}

} // verus!
