use auth_api::features::auth::errors::Error;
use auth_api::features::auth::jwt::claims::Claims;
use auth_api::features::auth::jwt::middleware::check_access;
use auth_api::features::auth::jwt::token;
use auth_api::features::jwt_auth;
use auth_api::features::jwt_auth::middleware::{parse_result, verdict, TokenParseResult, Verdict};
use auth_api::common::error::{ErrorKinde, ErrorSource};
use auth_api::common::error_response::Code;

fn jwt_error() -> jsonwebtoken::errors::Error {
    jsonwebtoken::errors::Error::from(jsonwebtoken::errors::ErrorKind::InvalidToken)
}

fn reference_token(claims_json: &str, secret: &str) -> String {
    let value: serde_json::Value = serde_json::from_str(claims_json).unwrap();
    jsonwebtoken::encode(
        &jsonwebtoken::Header::default(),
        &value,
        &jsonwebtoken::EncodingKey::from_secret(secret.as_bytes()),
    )
    .unwrap()
}

#[test]
fn expiring_claims_adds_minutes() {
    let c = token::expiring_claims(String::from("user"), 1000, 5);
    assert_eq!(c.sub, "user");
    assert_eq!(c.exp, 1300);
    let c = token::expiring_claims(String::from("user"), 1000, -1);
    assert_eq!(c.exp, 940);
}

#[test]
fn encode_at_signs_the_claims_in_field_order() {
    let t = token::encode_at(String::from("abc"), "s3cret", 2, 100).unwrap();
    assert_eq!(t, reference_token(r#"{"sub":"abc","exp":220}"#, "s3cret"));
    assert_eq!(t.split('.').count(), 3);
}

#[test]
fn encode_uses_the_clock() {
    let t = token::encode(String::from("someone"), "key", 10).unwrap();
    let data = jsonwebtoken::decode::<serde_json::Value>(
        &t,
        &jsonwebtoken::DecodingKey::from_secret(b"key"),
        &jsonwebtoken::Validation::default(),
    )
    .unwrap();
    assert_eq!(data.claims["sub"], "someone");
    assert!(jsonwebtoken::decode::<serde_json::Value>(
        &t,
        &jsonwebtoken::DecodingKey::from_secret(b"other"),
        &jsonwebtoken::Validation::default(),
    )
    .is_err());
}

#[test]
fn decode_maps_failures() {
    let c = token::decode(Ok(Claims { sub: String::from("x"), exp: 5 })).unwrap();
    assert_eq!((c.sub.as_str(), c.exp), ("x", 5));
    assert!(matches!(token::decode(Err(jwt_error())), Err(Error::InvalidToken(_))));
    let expired = jsonwebtoken::errors::Error::from(jsonwebtoken::errors::ErrorKind::ExpiredSignature);
    match token::decode(Err(expired)) {
        Err(Error::InvalidToken(e)) => {
            assert_eq!(*e.kind(), jsonwebtoken::errors::ErrorKind::ExpiredSignature)
        },
        _ => panic!("an expired token must be InvalidToken with its reason"),
    }
}

#[test]
fn extract_from_headers_cases() {
    assert_eq!(token::extract_from_headers(Some("Bearer xyz")).unwrap(), "xyz");
    assert!(matches!(token::extract_from_headers(None), Err(Error::MissingToken)));
    assert!(matches!(token::extract_from_headers(Some("Token xyz")), Err(Error::MissingToken)));
    assert!(matches!(token::extract_from_headers(Some("Bearer x y")), Err(Error::MissingToken)));
}

#[test]
fn claims_uuid() {
    let c = Claims { sub: String::from("550e8400-e29b-41d4-a716-446655440000"), exp: 0 };
    assert_eq!(c.uuid().unwrap(), 0x550e8400_e29b_41d4_a716_446655440000);
    let c = Claims { sub: String::from("nobody"), exp: 0 };
    assert!(matches!(c.uuid(), Err(Error::InvalidClaimsUuid)));
}

#[test]
fn access_check() {
    let ok = check_access(Ok(Claims { sub: String::from("s"), exp: 1 })).unwrap();
    assert_eq!(ok.sub, "s");
    let denied = check_access(Err(Error::MissingToken)).err().unwrap();
    assert_eq!(denied.meta.code, Code::AccessTokenMissing);
    assert_eq!(denied.status_code(), 401);
    assert_eq!(denied.error_response().error, 3);
    assert!(matches!(denied.parent, Some(Error::MissingToken)));
}

#[test]
fn older_token_module() {
    let t = jwt_auth::token::encode(String::from("u"), "k", 1).unwrap();
    assert_eq!(t.split('.').count(), 3);
    let e = jwt_auth::token::decode(Err(jwt_error())).err().unwrap();
    assert_eq!(e.meta.kinde, ErrorKinde::Internal);
    assert_eq!(e.status_code(), 500);
    assert_eq!(e.meta.message, "Internal server error");
    assert!(matches!(e.parent, Some(ErrorSource::Token(_))));
    assert_eq!(jwt_auth::token::extract_from_headers(Some("Bearer t")).unwrap(), "t");
    let missing = jwt_auth::token::extract_from_headers(Some("t")).err().unwrap();
    assert_eq!(missing.meta.kinde, ErrorKinde::AccessTokenMissing);
    assert_eq!(missing.status_code(), 401);
    assert_eq!(missing.meta.message, "Incorrect access token");
    assert!(missing.parent.is_none());
}

#[test]
fn middleware_verdicts() {
    let claims = Claims { sub: String::from("s"), exp: 1 };
    match verdict(parse_result(Ok(claims))) {
        Verdict::Forward(c) => assert_eq!(c.sub, "s"),
        Verdict::Reject(_) => panic!("a decoded token must pass"),
    }
    assert!(matches!(verdict(TokenParseResult::Missing), Verdict::Reject(401)));
    let failed = jwt_auth::token::decode(Err(jwt_error()));
    assert!(matches!(verdict(parse_result(failed)), Verdict::Reject(500)));
}
