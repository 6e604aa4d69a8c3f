use auth_gateway::identity::resolve_identity;
use auth_gateway::identity::role_of;
use auth_gateway::identity::Claims;
use auth_gateway::identity::UserRole;
use auth_gateway::errors::AuthError;

fn base_claims() -> Claims {
    Claims {
        sub: Some("42".to_string()),
        email: Some("someone@example.com".to_string()),
        role: None,
        app_metadata_role: None,
        iat: Some(1_700_000_000),
        exp: Some(1_700_003_600),
    }
}

#[test]
fn top_level_admin_role_grants_admin() {
    assert_eq!(role_of(&Some("admin".to_string()), &None), UserRole::Admin);
}

#[test]
fn nested_premium_role_grants_premium() {
    assert_eq!(role_of(&None, &Some("premium".to_string())), UserRole::Premium);
}

#[test]
fn unrecognized_role_falls_back_to_user() {
    assert_eq!(role_of(&Some("superuser".to_string()), &None), UserRole::User);
}

#[test]
fn absent_roles_default_to_user() {
    assert_eq!(role_of(&None, &None), UserRole::User);
}

#[test]
fn top_level_role_takes_precedence_when_recognized() {
    assert_eq!(
        role_of(&Some("premium".to_string()), &Some("admin".to_string())),
        UserRole::Premium
    );
}

#[test]
fn unrecognized_top_level_role_falls_through_to_nested() {
    assert_eq!(
        role_of(&Some("superuser".to_string()), &Some("premium".to_string())),
        UserRole::Premium
    );
}

#[test]
fn role_default_is_user() {
    assert_eq!(UserRole::default(), UserRole::User);
    assert_eq!(UserRole::User.as_str(), "user");
    assert_eq!(UserRole::Premium.as_str(), "premium");
    assert_eq!(UserRole::Admin.as_str(), "admin");
}

#[test]
fn complete_claims_resolve_to_identity() {
    let mut claims = base_claims();
    claims.role = Some("premium".to_string());
    let user = resolve_identity(claims).unwrap();
    assert_eq!(user.id, "42");
    assert_eq!(user.email.as_deref(), Some("someone@example.com"));
    assert_eq!(user.role, UserRole::Premium);
    assert_eq!(user.iat, 1_700_000_000);
    assert_eq!(user.exp, 1_700_003_600);
}

#[test]
fn missing_subject_is_rejected() {
    let mut claims = base_claims();
    claims.sub = None;
    let r = resolve_identity(claims);
    assert_eq!(r, Err(AuthError::ClaimInvalid { claim: "sub".to_string() }));
}

#[test]
fn empty_subject_is_rejected() {
    let mut claims = base_claims();
    claims.sub = Some(String::new());
    let r = resolve_identity(claims);
    assert_eq!(r, Err(AuthError::ClaimInvalid { claim: "sub".to_string() }));
}

#[test]
fn missing_issued_at_is_rejected() {
    let mut claims = base_claims();
    claims.iat = None;
    let r = resolve_identity(claims);
    assert_eq!(r, Err(AuthError::ClaimInvalid { claim: "iat".to_string() }));
}

#[test]
fn missing_expiry_is_rejected() {
    let mut claims = base_claims();
    claims.exp = None;
    let r = resolve_identity(claims);
    assert_eq!(r, Err(AuthError::ClaimInvalid { claim: "exp".to_string() }));
}

#[test]
fn missing_email_is_not_an_error() {
    let mut claims = base_claims();
    claims.email = None;
    let user = resolve_identity(claims).unwrap();
    assert_eq!(user.email, None);
    assert_eq!(user.role, UserRole::User);
}
