use auth_gateway::cache::FetchOutcome;
use auth_gateway::cache::KeyDirectoryCache;
use auth_gateway::cache::StartAction;
use auth_gateway::echo::echo_response;
use auth_gateway::echo::premium_echo_response;
use auth_gateway::echo::EchoRequest;
use auth_gateway::errors::AuthError;
use auth_gateway::errors::KeyDirectoryError;
use auth_gateway::gate::authenticate;
use auth_gateway::gate::extract_bearer;
use auth_gateway::identity::UserRole;
use auth_gateway::keys::KeySet;
use auth_gateway::profiles::classify_delete;
use auth_gateway::profiles::may_view_other_profile;
use auth_gateway::profiles::DbErrorKind;

const SECRET: &[u8] = b"test-shared-secret";
const ISS: &str = "https://issuer.example";
const AUD: &str = "authenticated";

const JWKS_DOC: &str = "{\"keys\":[\
{\"kty\":\"oct\",\"kid\":\"k1\",\"k\":\"test-shared-secret\"}]}";

fn now() -> i64 {
    jsonwebtoken::get_current_timestamp() as i64
}

fn token_for(sub: &str, role: Option<&str>) -> String {
    let t = now();
    let mut claims = serde_json::Map::new();
    claims.insert("sub".to_string(), serde_json::Value::String(sub.to_string()));
    claims.insert("iss".to_string(), serde_json::Value::String(ISS.to_string()));
    claims.insert("aud".to_string(), serde_json::Value::String(AUD.to_string()));
    claims.insert("iat".to_string(), serde_json::Value::Number((t - 10).into()));
    claims.insert("exp".to_string(), serde_json::Value::Number((t + 3600).into()));
    if let Some(r) = role {
        claims.insert("role".to_string(), serde_json::Value::String(r.to_string()));
    }
    let mut header = jsonwebtoken::Header::new(jsonwebtoken::Algorithm::HS256);
    header.kid = Some("k1".to_string());
    jsonwebtoken::encode(
        &header,
        &serde_json::Value::Object(claims),
        &jsonwebtoken::EncodingKey::from_secret(SECRET),
    )
    .unwrap()
}

/// Populates the cache the way the application does at startup and
/// hands back the key set it serves afterwards.
fn cached_keys() -> KeySet {
    let mut cache = KeyDirectoryCache::new();
    assert_eq!(cache.start(true), StartAction::BeginFetch);
    cache.complete(FetchOutcome::Body(JWKS_DOC.to_string())).unwrap();
    cache.current().unwrap().clone()
}

fn config() -> (Option<String>, Option<String>) {
    (Some(ISS.to_string()), Some(AUD.to_string()))
}

#[test]
fn missing_header_is_unauthorized_with_exact_body() {
    let keys = cached_keys();
    let (iss, aud) = config();
    let err = authenticate(None, Ok(&keys), &iss, &aud).unwrap_err();
    assert_eq!(err, AuthError::MissingToken);
    assert_eq!(err.http_status(), 401);
    assert_eq!(err.client_message(), "Authorization token not found");
}

#[test]
fn non_bearer_scheme_is_invalid_format() {
    let keys = cached_keys();
    let (iss, aud) = config();
    let header = "Basic dXNlcjpwYXNz".to_string();
    let err = authenticate(Some(&header), Ok(&keys), &iss, &aud).unwrap_err();
    assert_eq!(err, AuthError::InvalidTokenFormat);
    assert_eq!(err.http_status(), 401);
}

#[test]
fn extract_bearer_returns_the_token() {
    let header = "Bearer abc.def.ghi".to_string();
    assert_eq!(extract_bearer(Some(&header)).unwrap(), "abc.def.ghi");
    let bare = "Bearer".to_string();
    assert_eq!(extract_bearer(Some(&bare)), Err(AuthError::InvalidTokenFormat));
    assert_eq!(extract_bearer(None), Err(AuthError::MissingToken));
}

#[test]
fn premium_token_passes_the_premium_route() {
    let keys = cached_keys();
    let (iss, aud) = config();
    let header = format!("Bearer {}", token_for("42", Some("premium")));
    let user = authenticate(Some(&header), Ok(&keys), &iss, &aud).unwrap();
    assert_eq!(user.id, "42");
    assert_eq!(user.role, UserRole::Premium);
    let resp = premium_echo_response(&user, EchoRequest { message: "hello".to_string() }).unwrap();
    assert_eq!(resp.echoed_message, "PREMIUM: hello");
    assert_eq!(resp.user_id, "42");
    assert_eq!(resp.role, "premium");
}

#[test]
fn user_token_is_delivered_and_rejected_downstream() {
    let keys = cached_keys();
    let (iss, aud) = config();
    let header = format!("Bearer {}", token_for("42", None));
    // Authentication itself succeeds with the plain user role; the
    // premium route's own authorization then rejects with 403.
    let user = authenticate(Some(&header), Ok(&keys), &iss, &aud).unwrap();
    assert_eq!(user.role, UserRole::User);
    let r = premium_echo_response(&user, EchoRequest { message: "hello".to_string() });
    assert_eq!(r.unwrap_err(), "Unauthorized: Premium or Admin role required");
}

#[test]
fn plain_echo_reflects_message_and_identity() {
    let keys = cached_keys();
    let (iss, aud) = config();
    let header = format!("Bearer {}", token_for("42", None));
    let user = authenticate(Some(&header), Ok(&keys), &iss, &aud).unwrap();
    let resp = echo_response(&user, EchoRequest { message: "ping".to_string() });
    assert_eq!(resp.echoed_message, "ping");
    assert_eq!(resp.user_id, "42");
    assert_eq!(resp.role, "user");
}

#[test]
fn gate_surfaces_directory_failure_as_500() {
    let (iss, aud) = config();
    let header = format!("Bearer {}", token_for("42", None));
    let err = authenticate(
        Some(&header),
        Err(KeyDirectoryError::FetchFailed),
        &iss,
        &aud,
    )
    .unwrap_err();
    assert_eq!(err, AuthError::KeyDirectoryUnavailable { cause: KeyDirectoryError::FetchFailed });
    assert_eq!(err.http_status(), 500);
    assert_eq!(err.client_message(), "Error processing signing keys");
}

#[test]
fn error_kinds_map_to_their_status_and_message() {
    let cases: Vec<(AuthError, u16, &str)> = vec![
        (AuthError::MissingToken, 401, "Authorization token not found"),
        (AuthError::InvalidTokenFormat, 401, "Invalid token format"),
        (AuthError::MalformedToken, 401, "Token is invalid"),
        (AuthError::Expired, 401, "Token has expired"),
        (
            AuthError::ClaimInvalid { claim: "iss".to_string() },
            401,
            "Token claim invalid: iss",
        ),
        (
            AuthError::UnknownKey { kid: "k9".to_string() },
            500,
            "Could not verify token (key not found)",
        ),
        (
            AuthError::KeyDirectoryUnavailable { cause: KeyDirectoryError::ParseFailed },
            500,
            "Error processing signing keys",
        ),
        (AuthError::AlgorithmKeyMismatch, 500, "Internal server error"),
        (AuthError::UnsupportedKeyType, 500, "Internal server error"),
        (
            AuthError::ConfigMissing { name: "SUPABASE_JWT_ISS".to_string() },
            500,
            "Server configuration error for auth",
        ),
    ];
    for (err, status, message) in cases {
        assert_eq!(err.http_status(), status);
        assert_eq!(err.client_message(), message);
    }
}

#[test]
fn server_side_messages_never_leak_detail() {
    let err = AuthError::UnknownKey { kid: "secret-kid-name".to_string() };
    assert!(!err.client_message().contains("secret-kid-name"));
    let err = AuthError::ConfigMissing { name: "SUPABASE_JWT_AUD".to_string() };
    assert!(!err.client_message().contains("SUPABASE_JWT_AUD"));
}

#[test]
fn delete_of_absent_profile_is_not_found() {
    assert_eq!(classify_delete(0), Err(DbErrorKind::ProfileNotFound));
    assert_eq!(classify_delete(3), Ok(()));
}

#[test]
fn storage_failures_map_to_their_status() {
    assert_eq!(DbErrorKind::DatabaseUrlNotSet.http_status(), 500);
    assert_eq!(DbErrorKind::ProfileNotFound.http_status(), 404);
    assert_eq!(DbErrorKind::ProfileCreationError.http_status(), 400);
    assert_eq!(DbErrorKind::ProfileUpdateError.http_status(), 400);
    assert_eq!(DbErrorKind::ProfileDeleteError.http_status(), 500);
    assert_eq!(DbErrorKind::QueryError.http_status(), 500);
}

#[test]
fn only_admins_view_other_profiles() {
    assert!(may_view_other_profile(UserRole::Admin));
    assert!(!may_view_other_profile(UserRole::Premium));
    assert!(!may_view_other_profile(UserRole::User));
}
