//! The echo endpoints' request handling: plain echo for any
//! authenticated user, and a premium echo gated on the Premium or
//! Admin role. The role gate and the response contents are verified;
//! serialization stays outside the library.

use vstd::prelude::*;

use crate::identity::spec_role_name;
use crate::identity::AuthUser;
use crate::identity::UserRole;

verus! {

/// Request payload for the echo endpoints.
#[derive(Debug, Clone)]
pub struct EchoRequest {
    pub message: String,
}

/// Response payload for the echo endpoints.
#[derive(Debug, Clone)]
pub struct EchoResponse {
    pub echoed_message: String,
    pub user_id: String,
    pub role: String,
}

/// Whether a role may use the premium endpoints: Premium or Admin.
pub open spec fn spec_premium_allowed(role: UserRole) -> bool {
    role == UserRole::Premium || role == UserRole::Admin
}

/// Builds the echo response for any authenticated user: the message
/// unchanged, with the caller's identity and role name.
pub fn echo_response(user: &AuthUser, req: EchoRequest) -> (r: EchoResponse)
    ensures
        r.echoed_message == req.message,
        r.user_id == user.id,
        r.role@ == spec_role_name(user.role),
{
    EchoResponse {
        echoed_message: req.message,
        user_id: user.id.clone(),
        role: user.role.as_str().to_owned(),
    }
}

/// Builds the premium echo response, rejecting any caller whose role
/// is neither Premium nor Admin; an allowed caller's message comes
/// back with the premium prefix.
pub fn premium_echo_response(user: &AuthUser, req: EchoRequest) -> (r: Result<EchoResponse, String>)
    ensures
        !spec_premium_allowed(user.role) ==> (r matches Err(m) && m@
            == "Unauthorized: Premium or Admin role required"@),
        spec_premium_allowed(user.role) ==> (r matches Ok(resp) && resp.echoed_message@
            == "PREMIUM: "@ + req.message@ && resp.user_id == user.id && resp.role@
            == spec_role_name(user.role)),
{
    let allowed = match user.role {
        UserRole::Premium => true,
        UserRole::Admin => true,
        UserRole::User => false,
    };
    if !allowed {
        return Err(String::from_str("Unauthorized: Premium or Admin role required"));
    }
    Ok(
        EchoResponse {
            echoed_message: String::from_str("PREMIUM: ").concat(req.message.as_str()),
            user_id: user.id.clone(),
            role: user.role.as_str().to_owned(),
        },
    )
}

} // verus!
