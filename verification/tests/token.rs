use auth_core::errors::{AppError, ErrorKind};
use auth_core::models::{Claims, UserRole};
use auth_core::token::{
    authenticate, authenticate_at, claims_from_decoded, claims_from_payload, mint_tokens,
    require_role, TokenPayload, ACCESS_TOKEN_TTL_SECS, REFRESH_TOKEN_BYTES,
    REFRESH_TOKEN_TTL_SECS,
};

const SECRET: &str = "a-server-held-secret";
const NOW: u64 = 1_700_000_000;

fn entropy() -> Vec<u8> {
    (0u8..32).collect()
}

fn payload(exp: u64, iat: u64, user_id: i64, role: &str) -> TokenPayload {
    TokenPayload { exp: Some(exp), iat: Some(iat), user_id: Some(user_id), role: Some(role.to_string()) }
}

fn signed(fields: serde_json::Map<String, serde_json::Value>, secret: &str) -> String {
    jsonwebtoken::encode(
        &jsonwebtoken::Header::default(),
        &fields,
        &jsonwebtoken::EncodingKey::from_secret(secret.as_bytes()),
    )
    .unwrap()
}

fn assert_unauthorized(result: Result<Claims, AppError>, message: &str) {
    let error = result.unwrap_err();
    assert_eq!(error.kind, ErrorKind::Unauthorized);
    assert_eq!(error.status_code(), 401);
    assert_eq!(error.message, message);
}

#[test]
fn lifetimes_are_fifteen_minutes_and_thirty_days() {
    assert_eq!(ACCESS_TOKEN_TTL_SECS, 15 * 60);
    assert_eq!(REFRESH_TOKEN_TTL_SECS, 30 * 24 * 60 * 60);
    assert_eq!(REFRESH_TOKEN_BYTES, 32);
}

#[test]
fn minted_refresh_token_is_hex_of_entropy() {
    let minted = mint_tokens(7, UserRole::User, NOW, SECRET, &entropy()).unwrap();
    assert_eq!(
        minted.tokens.refresh_token,
        "000102030405060708090a0b0c0d0e0f101112131415161718191a1b1c1d1e1f"
    );
    assert_eq!(minted.session.refresh_token, minted.tokens.refresh_token);
}

#[test]
fn minted_refresh_token_uses_lower_case_digits() {
    let minted = mint_tokens(7, UserRole::User, NOW, SECRET, &vec![0xAB, 0xCD, 0xEF, 0x09]).unwrap();
    assert_eq!(minted.tokens.refresh_token, "abcdef09");
}

#[test]
fn minted_session_expires_after_thirty_days() {
    let minted = mint_tokens(7, UserRole::User, NOW, SECRET, &entropy()).unwrap();
    assert_eq!(minted.session.user_id, 7);
    assert_eq!(minted.session.expires_at, 1_702_592_000);
}

#[test]
fn minted_access_token_states_the_claims() {
    let minted = mint_tokens(7, UserRole::Admin, NOW, SECRET, &entropy()).unwrap();
    assert_eq!(minted.tokens.access_token.split('.').count(), 3);
    let claims = authenticate_at(Some(&minted.tokens.access_token), SECRET, NOW).unwrap();
    assert_eq!(claims, Claims { exp: 1_700_000_900, iat: NOW, user_id: 7, role: UserRole::Admin });
}

#[test]
fn minting_is_repeatable_for_the_same_inputs() {
    let first = mint_tokens(7, UserRole::User, NOW, SECRET, &entropy()).unwrap();
    let second = mint_tokens(7, UserRole::User, NOW, SECRET, &entropy()).unwrap();
    assert_eq!(first.tokens.access_token, second.tokens.access_token);
}

#[test]
fn access_token_is_valid_until_its_expiry_inclusive() {
    let minted = mint_tokens(3, UserRole::User, NOW, SECRET, &entropy()).unwrap();
    let token = minted.tokens.access_token;
    assert!(authenticate_at(Some(&token), SECRET, NOW + 899).is_ok());
    assert!(authenticate_at(Some(&token), SECRET, NOW + 900).is_ok());
    assert_unauthorized(authenticate_at(Some(&token), SECRET, NOW + 901), "token expired");
}

#[test]
fn missing_bearer_is_unauthorized() {
    assert_unauthorized(authenticate_at(None, SECRET, NOW), "authorization token required");
}

#[test]
fn token_signed_with_another_secret_is_unauthorized() {
    let minted = mint_tokens(3, UserRole::User, NOW, "another-secret", &entropy()).unwrap();
    assert_unauthorized(
        authenticate_at(Some(&minted.tokens.access_token), SECRET, NOW),
        "invalid token",
    );
}

#[test]
fn tampered_payload_is_unauthorized() {
    let minted = mint_tokens(3, UserRole::User, NOW, SECRET, &entropy()).unwrap();
    let forged = mint_tokens(3, UserRole::Admin, NOW, "guess", &entropy()).unwrap();
    let genuine: Vec<&str> = minted.tokens.access_token.split('.').collect();
    let other: Vec<&str> = forged.tokens.access_token.split('.').collect();
    let spliced = format!("{}.{}.{}", genuine[0], other[1], genuine[2]);
    assert_ne!(spliced, minted.tokens.access_token);
    assert_unauthorized(authenticate_at(Some(&spliced), SECRET, NOW), "invalid token");
}

#[test]
fn garbage_is_unauthorized() {
    assert_unauthorized(authenticate_at(Some("not.a.token"), SECRET, NOW), "invalid token");
    assert_unauthorized(authenticate_at(Some(""), SECRET, NOW), "invalid token");
}

#[test]
fn properly_signed_token_without_role_is_unauthorized() {
    let mut fields = serde_json::Map::new();
    fields.insert("exp".to_string(), serde_json::Value::from(NOW + 900));
    fields.insert("iat".to_string(), serde_json::Value::from(NOW));
    fields.insert("user_id".to_string(), serde_json::Value::from(3));
    let token = signed(fields, SECRET);
    assert_unauthorized(authenticate_at(Some(&token), SECRET, NOW), "invalid token");
}

#[test]
fn properly_signed_token_with_unknown_role_is_unauthorized() {
    let mut fields = serde_json::Map::new();
    fields.insert("exp".to_string(), serde_json::Value::from(NOW + 900));
    fields.insert("iat".to_string(), serde_json::Value::from(NOW));
    fields.insert("user_id".to_string(), serde_json::Value::from(3));
    fields.insert("role".to_string(), serde_json::Value::from("admin"));
    let token = signed(fields, SECRET);
    assert_unauthorized(authenticate_at(Some(&token), SECRET, NOW), "invalid token");
}

#[test]
fn token_signed_elsewhere_with_the_same_secret_is_accepted() {
    let mut fields = serde_json::Map::new();
    fields.insert("exp".to_string(), serde_json::Value::from(NOW + 60));
    fields.insert("iat".to_string(), serde_json::Value::from(NOW - 5));
    fields.insert("user_id".to_string(), serde_json::Value::from(41));
    fields.insert("role".to_string(), serde_json::Value::from("Admin"));
    let token = signed(fields, SECRET);
    let claims = authenticate_at(Some(&token), SECRET, NOW).unwrap();
    assert_eq!(claims, Claims { exp: NOW + 60, iat: NOW - 5, user_id: 41, role: UserRole::Admin });
}

#[test]
fn authenticate_judges_at_the_current_time() {
    let now = std::time::SystemTime::now()
        .duration_since(std::time::UNIX_EPOCH)
        .unwrap()
        .as_secs();
    let fresh = mint_tokens(5, UserRole::User, now, SECRET, &entropy()).unwrap();
    let claims = authenticate(Some(&fresh.tokens.access_token), SECRET).unwrap();
    assert_eq!(claims.user_id, 5);
    let stale = mint_tokens(5, UserRole::User, now - 1000, SECRET, &entropy()).unwrap();
    assert_unauthorized(authenticate(Some(&stale.tokens.access_token), SECRET), "token expired");
}

#[test]
fn payload_with_all_fields_states_claims() {
    let claims = claims_from_payload(&payload(10, 5, 7, "Admin"));
    assert_eq!(claims, Some(Claims { exp: 10, iat: 5, user_id: 7, role: UserRole::Admin }));
    let claims = claims_from_payload(&payload(10, 5, -7, "User"));
    assert_eq!(claims, Some(Claims { exp: 10, iat: 5, user_id: -7, role: UserRole::User }));
}

#[test]
fn payload_with_a_missing_field_states_nothing() {
    let mut p = payload(10, 5, 7, "User");
    p.exp = None;
    assert_eq!(claims_from_payload(&p), None);
    let mut p = payload(10, 5, 7, "User");
    p.iat = None;
    assert_eq!(claims_from_payload(&p), None);
    let mut p = payload(10, 5, 7, "User");
    p.user_id = None;
    assert_eq!(claims_from_payload(&p), None);
    let mut p = payload(10, 5, 7, "User");
    p.role = None;
    assert_eq!(claims_from_payload(&p), None);
}

#[test]
fn payload_with_user_id_beyond_i32_states_nothing() {
    assert_eq!(claims_from_payload(&payload(10, 5, 2_147_483_648, "User")), None);
    assert_eq!(claims_from_payload(&payload(10, 5, -2_147_483_649, "User")), None);
    assert!(claims_from_payload(&payload(10, 5, 2_147_483_647, "User")).is_some());
    assert!(claims_from_payload(&payload(10, 5, -2_147_483_648, "User")).is_some());
}

#[test]
fn payload_with_unknown_role_states_nothing() {
    assert_eq!(claims_from_payload(&payload(10, 5, 7, "user")), None);
    assert_eq!(claims_from_payload(&payload(10, 5, 7, "Root")), None);
    assert_eq!(claims_from_payload(&payload(10, 5, 7, "")), None);
}

#[test]
fn decoded_payload_is_judged_against_the_clock() {
    assert!(claims_from_decoded(Ok(payload(10, 5, 7, "User")), 9).is_ok());
    assert!(claims_from_decoded(Ok(payload(10, 5, 7, "User")), 10).is_ok());
    assert_unauthorized(claims_from_decoded(Ok(payload(10, 5, 7, "User")), 11), "token expired");
}

#[test]
fn decoding_error_is_unauthorized() {
    let cause = jsonwebtoken::errors::Error::from(jsonwebtoken::errors::ErrorKind::InvalidSignature);
    let error = claims_from_decoded(Err(cause.clone()), 0).unwrap_err();
    assert_eq!(error.detail, "Error(InvalidSignature)");
    assert_unauthorized(claims_from_decoded(Err(cause), 0), "invalid token");
    let error = claims_from_decoded(Ok(payload(10, 5, 7, "nobody")), 0).unwrap_err();
    assert_eq!(error.detail, "");
    assert_unauthorized(claims_from_decoded(Ok(payload(10, 5, 7, "nobody")), 0), "invalid token");
}

#[test]
fn role_gate_lets_the_required_role_pass() {
    let admin = Claims { exp: 10, iat: 5, user_id: 1, role: UserRole::Admin };
    assert!(require_role(&admin, UserRole::Admin).is_ok());
    let user = Claims { exp: 10, iat: 5, user_id: 2, role: UserRole::User };
    assert!(require_role(&user, UserRole::User).is_ok());
}

#[test]
fn role_gate_refuses_another_role_as_forbidden() {
    let user = Claims { exp: 10, iat: 5, user_id: 2, role: UserRole::User };
    let error = require_role(&user, UserRole::Admin).unwrap_err();
    assert_eq!(error.kind, ErrorKind::Forbidden);
    assert_eq!(error.status_code(), 403);
    assert_eq!(error.message, "access denied");
}

#[test]
fn role_names() {
    assert_eq!(UserRole::User.as_claim(), "User");
    assert_eq!(UserRole::Admin.as_claim(), "Admin");
    assert_eq!(UserRole::from_claim("User"), Some(UserRole::User));
    assert_eq!(UserRole::from_claim("Admin"), Some(UserRole::Admin));
    assert_eq!(UserRole::from_claim("admin"), None);
    assert_eq!(UserRole::User.to_string(), "user");
    assert_eq!(UserRole::Admin.to_string(), "admin");
}
