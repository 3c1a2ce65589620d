use auth_service::claims::Claims;
use auth_service::codec::{claims_from, create_token, decode_claims, ClaimFields};
use auth_service::error::{AppError, ErrorResponse};
use auth_service::authorization::{authenticate, check_is_expired, extract_token, jwt_from_header, TokenCarrier};
use auth_service::revocation::{AuthRepository, MemoryAuthRepository};
use auth_service::session::get_expired_seconds;
use auth_service::subject::{parse_subject, subject_string};

const SECRET: &str = "authz-test-secret";

#[test]
fn header_without_value_is_missing_token() {
    assert_eq!(jwt_from_header(None).unwrap_err(), AppError::TokenNotExist);
}

#[test]
fn header_without_bearer_prefix_is_missing_token() {
    assert_eq!(jwt_from_header(Some("Basic abc")).unwrap_err(), AppError::TokenNotExist);
    assert_eq!(jwt_from_header(Some("bearer abc")).unwrap_err(), AppError::TokenNotExist);
    assert_eq!(jwt_from_header(Some("Bearer")).unwrap_err(), AppError::TokenNotExist);
}

#[test]
fn header_bearer_token_is_extracted() {
    assert_eq!(jwt_from_header(Some("Bearer abc.def.ghi")).unwrap(), "abc.def.ghi");
    assert_eq!(jwt_from_header(Some("Bearer ")).unwrap(), "");
    assert_eq!(jwt_from_header(Some("Bearer Bearer xyz")).unwrap(), "xyz");
}

#[test]
fn cookie_token_is_taken_as_is() {
    assert_eq!(extract_token(TokenCarrier::Cookie, Some("abc")).unwrap(), "abc");
    assert_eq!(extract_token(TokenCarrier::Cookie, None).unwrap_err(), AppError::TokenNotExist);
    assert_eq!(
        extract_token(TokenCarrier::BearerHeader, Some("Bearer q")).unwrap(),
        "q"
    );
}

#[test]
fn authenticate_through_header_and_cookie() {
    let mut auth = MemoryAuthRepository::new();
    let id: u128 = 77;
    let token = create_token(Claims::new(subject_string(id), 0, 4), SECRET);
    auth.create(id, token.as_str(), get_expired_seconds()).unwrap();
    let header = format!("Bearer {}", token);
    let by_header = authenticate(TokenCarrier::BearerHeader, Some(header.as_str()), SECRET, &auth).unwrap();
    assert_eq!(by_header.sub, subject_string(id));
    assert_eq!(by_header.role, 4);
    let by_cookie = authenticate(TokenCarrier::Cookie, Some(token.as_str()), SECRET, &auth).unwrap();
    assert_eq!(by_cookie.exp, 0);
    assert_eq!(
        authenticate(TokenCarrier::BearerHeader, Some(token.as_str()), SECRET, &auth).unwrap_err(),
        AppError::TokenNotExist
    );
    assert_eq!(
        authenticate(TokenCarrier::Cookie, Some("not a token"), SECRET, &auth).unwrap_err(),
        AppError::AuthorizeFailed
    );
}

#[test]
fn authorization_ignores_embedded_expiry() {
    let mut auth = MemoryAuthRepository::new();
    let id: u128 = 5;
    let token = create_token(Claims::new(subject_string(id), 1, 0), SECRET);
    auth.create(id, token.as_str(), 60).unwrap();
    assert!(decode_claims(token.as_str(), SECRET, true).is_err());
    assert!(authenticate(TokenCarrier::Cookie, Some(token.as_str()), SECRET, &auth).is_ok());
}

#[test]
fn subject_that_is_not_an_id_counts_as_expired() {
    let auth = MemoryAuthRepository::new();
    let token = create_token(Claims::new("not-an-id".to_string(), 0, 0), SECRET);
    let r = authenticate(TokenCarrier::Cookie, Some(token.as_str()), SECRET, &auth);
    assert_eq!(r.unwrap_err(), AppError::TokenIsExpired);
    let claims = Claims::new("not-an-id".to_string(), 0, 0);
    assert_eq!(check_is_expired(&claims, &auth).unwrap(), true);
}

#[test]
fn check_is_expired_follows_the_store() {
    let mut auth = MemoryAuthRepository::new();
    let claims = Claims::new(subject_string(9), 0, 0);
    assert_eq!(check_is_expired(&claims, &auth).unwrap(), true);
    auth.create(9, "marker", 10).unwrap();
    assert_eq!(check_is_expired(&claims, &auth).unwrap(), false);
    auth.set_online(false);
    assert_eq!(check_is_expired(&claims, &auth).unwrap_err(), AppError::BackendError);
}

#[test]
fn subject_text_round_trip() {
    assert_eq!(subject_string(0), "00000000-0000-0000-0000-000000000000");
    assert_eq!(subject_string(u128::MAX), "ffffffff-ffff-ffff-ffff-ffffffffffff");
    let id: u128 = 0x550e8400_e29b_41d4_a716_446655440000;
    assert_eq!(subject_string(id), "550e8400-e29b-41d4-a716-446655440000");
    assert_eq!(parse_subject("550e8400-e29b-41d4-a716-446655440000"), Some(id));
    assert_eq!(parse_subject("550E8400E29B41D4A716446655440000"), Some(id));
    assert_eq!(parse_subject("nope"), None);
}

#[test]
fn claim_fields_are_checked_against_claim_types() {
    let ok = claims_from(ClaimFields { sub: Some("s".to_string()), exp: Some(3), role: Some(255) });
    let c = ok.unwrap();
    assert_eq!((c.sub.as_str(), c.exp, c.role), ("s", 3, 255));
    assert!(claims_from(ClaimFields { sub: Some("s".to_string()), exp: Some(3), role: Some(256) }).is_none());
    assert!(claims_from(ClaimFields { sub: None, exp: Some(3), role: Some(1) }).is_none());
    assert!(claims_from(ClaimFields { sub: Some("s".to_string()), exp: None, role: Some(1) }).is_none());
}

#[test]
fn malformed_token_fails_decode() {
    assert_eq!(decode_claims("", SECRET, false).unwrap_err(), AppError::DecodeClaimsFailed);
    assert_eq!(decode_claims("a.b.c", SECRET, false).unwrap_err(), AppError::DecodeClaimsFailed);
}

#[test]
fn token_round_trips_claims() {
    let token = create_token(Claims::new("subject".to_string(), 123, 7), SECRET);
    assert_eq!(token.split('.').count(), 3);
    let c = decode_claims(token.as_str(), SECRET, false).unwrap();
    assert_eq!((c.sub.as_str(), c.exp, c.role), ("subject", 123, 7));
}

#[test]
fn error_codes_and_messages() {
    assert_eq!(AppError::AuthorizeFailed.status_code(), 401);
    assert_eq!(AppError::UserNotExist.status_code(), 404);
    assert_eq!(AppError::DatabaseError.status_code(), 500);
    assert_eq!(AppError::BackendError.status_code(), 500);
    assert_eq!(AppError::TokenIsExpired.message(), "token is expired.");
    let body = ErrorResponse::for_error(AppError::HashPasswordFailed);
    assert_eq!(body.code, 500);
    assert_eq!(body.message, "hash password failed.");
    let body = ErrorResponse::from((404u16, "not found."));
    assert_eq!((body.code, body.message.as_str()), (404, "not found."));
}
