use auth_api::common::authorization::bearer_token;
use auth_api::common::configuration::Environment;
use auth_api::common::error::{
    is_unique_violation, user_exist_on_unique_violation, Error, ErrorKinde, ErrorMeta,
    ErrorSource,
};
use auth_api::common::error_response::{self, Code, ErrorResponse};
use auth_api::common::response_payload::{ResponseEmptyData, ResponsePayload};
use auth_api::common::user_id::uuid_to_string;
use auth_api::features::auth::jwt::claims::Claims;

fn environment() -> Environment {
    Environment {
        url: String::from("127.0.0.1"),
        port: 8080,
        database_url: String::from("postgres://localhost/db"),
        jwt_secret: String::from("secret"),
        jwt_duration: 60,
    }
}

#[test]
fn socket_addrs_returns_url_and_port() {
    let env = environment();
    assert_eq!(env.socket_addrs(), (String::from("127.0.0.1"), 8080));
}

#[test]
fn code_raw_values() {
    assert_eq!(Code::UserExist.raw_value(), 1);
    assert_eq!(Code::UserNotFound.raw_value(), 2);
    assert_eq!(Code::AccessTokenMissing.raw_value(), 3);
    assert_eq!(Code::Internal.raw_value(), 500);
}

#[test]
fn code_values_are_distinct_and_nonzero() {
    let all = [Code::UserExist, Code::UserNotFound, Code::AccessTokenMissing, Code::Internal];
    for (i, a) in all.iter().enumerate() {
        assert_ne!(a.raw_value(), 0);
        for (j, b) in all.iter().enumerate() {
            if i != j {
                assert_ne!(a.raw_value(), b.raw_value());
            }
        }
    }
}

#[test]
fn response_payload_constructors() {
    let e = ResponsePayload::error(7, String::from("bad"));
    assert_eq!(e.error, 7);
    assert_eq!(e.message, "bad");
    let s = ResponsePayload::succes_and_empty(String::from("fine"));
    assert_eq!(s.error, 0);
    assert_eq!(s.message, "fine");
    let d = ResponsePayload::succes(String::from("data"), 42u32);
    assert_eq!(d.error, 0);
    assert_eq!(d.message, "data");
    assert_eq!(d.data, 42);
    let _empty: ResponseEmptyData = e.data;
}

#[test]
fn common_error_metas() {
    let m = ErrorMeta::user_exist();
    assert_eq!((m.kinde, m.status_code, m.code, m.message.as_str()), (ErrorKinde::UserExist, 409, 1, "User alredy exist"));
    let m = ErrorMeta::user_not_found();
    assert_eq!((m.kinde, m.status_code, m.code, m.message.as_str()), (ErrorKinde::UserNotFound, 409, 2, "User not found"));
    let m = ErrorMeta::access_token_missing();
    assert_eq!((m.kinde, m.status_code, m.code, m.message.as_str()), (ErrorKinde::AccessTokenMissing, 401, 3, "Incorrect access token"));
    let m = ErrorMeta::internal();
    assert_eq!((m.kinde, m.status_code, m.code, m.message.as_str()), (ErrorKinde::Internal, 500, 500, "Internal server error"));
}

#[test]
fn error_from_meta_has_no_parent() {
    let e = Error::from(ErrorMeta::user_exist());
    assert!(e.parent.is_none());
    assert_eq!(e.status_code(), 409);
    let body = e.error_response();
    assert_eq!(body.error, 1);
    assert_eq!(body.message, "User alredy exist");
}

#[test]
fn from_parent_is_internal() {
    let e = Error::from_parent(ErrorSource::Database(sqlx::Error::RowNotFound));
    assert_eq!(e.meta.kinde, ErrorKinde::Internal);
    assert_eq!(e.status_code(), 500);
    assert!(matches!(e.parent, Some(ErrorSource::Database(sqlx::Error::RowNotFound))));
    let body = e.error_response();
    assert_eq!(body.error, 500);
    assert_eq!(body.message, "Internal server error");
}

#[test]
fn unique_violation_code_is_recognised() {
    assert!(is_unique_violation("23505"));
    assert!(!is_unique_violation("23503"));
    assert!(!is_unique_violation(""));
    assert!(!is_unique_violation("235050"));
    let e = user_exist_on_unique_violation("23505").unwrap();
    assert_eq!(e.meta.kinde, ErrorKinde::UserExist);
    assert!(user_exist_on_unique_violation("42P01").is_none());
}

#[test]
fn from_db_error_translates_codes() {
    let e = Error::from_db_error(user_exist_on_unique_violation, Some("23505"), sqlx::Error::RowNotFound);
    assert_eq!(e.meta.kinde, ErrorKinde::UserExist);
    assert_eq!(e.meta.message, "User alredy exist");
    assert!(e.parent.is_none());
    let e = Error::from_db_error(user_exist_on_unique_violation, Some("42P01"), sqlx::Error::RowNotFound);
    assert_eq!(e.meta.kinde, ErrorKinde::Internal);
    assert!(matches!(e.parent, Some(ErrorSource::Database(_))));
    let e = Error::from_db_error(user_exist_on_unique_violation, None, sqlx::Error::PoolClosed);
    assert_eq!(e.meta.kinde, ErrorKinde::Internal);
    assert_eq!((e.meta.status_code, e.meta.code), (500, 500));
    assert_eq!(e.meta.message, "Internal server error");
    assert!(matches!(e.parent, Some(ErrorSource::Database(sqlx::Error::PoolClosed))));
}

#[test]
fn endpoint_error_metas() {
    let m = error_response::ErrorMeta::user_exist();
    assert_eq!((m.code, m.status_code, m.message.as_str()), (Code::UserExist, 409, "User with same login or email alredy exist"));
    let m = error_response::ErrorMeta::user_not_found();
    assert_eq!((m.code, m.status_code, m.message.as_str()), (Code::UserNotFound, 403, "Bad credentials"));
    let m = error_response::ErrorMeta::access_token_missing();
    assert_eq!((m.code, m.status_code, m.message.as_str()), (Code::AccessTokenMissing, 401, "Incorrect access token"));
    let m = error_response::ErrorMeta::internal();
    assert_eq!((m.code, m.status_code, m.message.as_str()), (Code::Internal, 500, "Internal server error"));
}

#[test]
fn error_response_payload() {
    let r = ErrorResponse::from(error_response::ErrorMeta::access_token_missing());
    assert!(r.parent.is_none());
    assert_eq!(r.status_code(), 401);
    let body = r.error_response();
    assert_eq!(body.error, 3);
    assert_eq!(body.message, "Incorrect access token");
}

#[test]
fn bearer_header_yields_token() {
    assert_eq!(bearer_token("Bearer abc.def.ghi"), Some("abc.def.ghi"));
    assert_eq!(bearer_token("Bearer "), Some(""));
}

#[test]
fn malformed_headers_yield_no_token() {
    assert_eq!(bearer_token(""), None);
    assert_eq!(bearer_token("Bearer"), None);
    assert_eq!(bearer_token("BearerX abc"), None);
    assert_eq!(bearer_token("bearer abc"), None);
    assert_eq!(bearer_token("Basic abc"), None);
    assert_eq!(bearer_token("Bearer a b"), None);
    assert_eq!(bearer_token("Bearer  abc"), None);
    assert_eq!(bearer_token(" Bearer abc"), None);
    assert_eq!(bearer_token("Bearer\tabc"), None);
}

#[test]
fn uuid_text_is_hyphenated_lowercase() {
    assert_eq!(uuid_to_string(0x550e8400_e29b_41d4_a716_446655440000), "550e8400-e29b-41d4-a716-446655440000");
    assert_eq!(uuid_to_string(0), "00000000-0000-0000-0000-000000000000");
    assert_eq!(uuid_to_string(u128::MAX), "ffffffff-ffff-ffff-ffff-ffffffffffff");
    assert_eq!(uuid_to_string(0xABCDEF), "00000000-0000-0000-0000-000000abcdef");
}

#[test]
fn uuid_text_agrees_with_the_uuid_crate() {
    for id in [0u128, 1, 0x1234_5678_9abc_def0_0fed_cba9_8765_4321, u128::MAX, u128::MAX / 3] {
        assert_eq!(uuid_to_string(id), uuid::Uuid::from_u128(id).to_string());
    }
}

fn claims_of(sub: &str) -> Claims {
    Claims { sub: String::from(sub), exp: 0 }
}

#[test]
fn uuid_text_parses_back() {
    for id in [0u128, 7, 0x550e8400_e29b_41d4_a716_446655440000, u128::MAX] {
        assert_eq!(claims_of(&uuid_to_string(id)).uuid().ok(), Some(id));
    }
    assert_eq!(
        claims_of("550e8400e29b41d4a716446655440000").uuid().ok(),
        Some(0x550e8400_e29b_41d4_a716_446655440000)
    );
    assert!(claims_of("not-a-uuid").uuid().is_err());
    assert!(claims_of("").uuid().is_err());
}

#[test]
fn distinct_ids_have_distinct_texts() {
    assert_ne!(uuid_to_string(1), uuid_to_string(16));
    assert_ne!(uuid_to_string(1 << 64), uuid_to_string(1));
}
