use auth_api::common::configuration::Environment;
use auth_api::common::user_id::uuid_to_string;
use auth_api::features::auth::api_handlers::login_handler::{
    login_start, login_step, LoginAction, LoginEvent, LoginState, Payload as LoginPayload,
};
use auth_api::features::auth::api_handlers::refresh_token_handler::{
    refresh_start, refresh_step, Payload as RefreshPayload, RefreshAction, RefreshEvent,
    RefreshState,
};
use auth_api::features::auth::api_handlers::register_handler::{
    register_start, register_step, Payload as RegisterPayload, RegisterAction, RegisterEvent,
    RegisterState,
};
use auth_api::features::auth::entity::User;
use auth_api::features::auth::errors::Error;
use auth_api::features::auth::jwt::claims::Claims;
use auth_api::features::auth::password_hash;

const ID: u128 = 0x0123_4567_89ab_cdef_0123_4567_89ab_cdef;

fn environment() -> Environment {
    Environment {
        url: String::from("localhost"),
        port: 1,
        database_url: String::new(),
        jwt_secret: String::from("flow-secret"),
        jwt_duration: 15,
    }
}

fn user(hash: String, refresh_token: Option<String>) -> User {
    User {
        id: ID,
        username: String::from("carol"),
        hash,
        refresh_token,
        email: String::from("carol@example.com"),
        email_verified: true,
        created: 61,
        updated: 61,
        is_delete: false,
    }
}

fn claims_of(token: &str) -> serde_json::Value {
    jsonwebtoken::decode::<serde_json::Value>(
        token,
        &jsonwebtoken::DecodingKey::from_secret(b"flow-secret"),
        &jsonwebtoken::Validation::default(),
    )
    .unwrap()
    .claims
}

#[test]
fn registered_user_logs_in() {
    let env = environment();
    let (state, action) = register_start(RegisterPayload {
        login: String::from("carol"),
        password: String::from("s3cret!"),
        email: String::from("carol@example.com"),
    });
    let hash = match action {
        RegisterAction::CreateUser { user } => {
            assert_eq!(user.username, "carol");
            assert_eq!(user.email, "carol@example.com");
            assert!(!user.email_verified);
            assert!(!user.is_delete);
            assert_eq!((user.created, user.updated), (61, 61));
            assert!(user.hash.starts_with("$argon2i$v=19$m=15360,t=10,p=4$"));
            assert_ne!(user.hash, "s3cret!");
            user.hash
        }
        RegisterAction::Respond(_) => panic!("hashing must succeed"),
    };
    assert!(matches!(state, RegisterState::AwaitingCreate));
    assert!(matches!(register_step(state, RegisterEvent::Created), (RegisterState::Finished, RegisterAction::Respond(Ok(())))));

    let (state, action) = login_start(LoginPayload { login: String::from("carol"), password: String::from("s3cret!") });
    match action {
        LoginAction::FindUser { login } => assert_eq!(login, "carol"),
        _ => panic!("a login starts with the lookup"),
    }
    let (state, action) = login_step(state, LoginEvent::UserFound(Ok(Some(user(hash, None)))), &env);
    let refresh = match action {
        LoginAction::StoreRefreshToken { user_id, refresh_token } => {
            assert_eq!(user_id, ID);
            assert_eq!(refresh_token.len(), 256);
            refresh_token
        }
        _ => panic!("the right password must lead to a new refresh token"),
    };
    let (state, action) = login_step(state, LoginEvent::TokenStored(Ok(())), &env);
    assert!(matches!(state, LoginState::Finished));
    match action {
        LoginAction::Respond(Ok(r)) => {
            assert_eq!(r.refresh_token, refresh);
            assert_eq!(claims_of(&r.access_token)["sub"], uuid_to_string(ID));
        }
        _ => panic!("the login must succeed"),
    }
}

#[test]
fn registration_reports_existing_user() {
    let (state, _) = register_start(RegisterPayload {
        login: String::from("dave"),
        password: String::from("pw"),
        email: String::from("dave@example.com"),
    });
    let event = RegisterEvent::CreateFailed { code: Some(String::from("23505")), error: sqlx::Error::RowNotFound };
    assert!(matches!(register_step(state, event).1, RegisterAction::Respond(Err(Error::DbUserAlreadyExist(_)))));
    let event = RegisterEvent::CreateFailed { code: None, error: sqlx::Error::PoolClosed };
    assert!(matches!(register_step(RegisterState::AwaitingCreate, event).1, RegisterAction::Respond(Err(Error::DbUserCreateFail(_)))));
}

#[test]
fn login_failures() {
    let env = environment();
    let hash = password_hash::new("right").unwrap();
    let start = || login_start(LoginPayload { login: String::from("carol"), password: String::from("wrong") }).0;
    assert!(matches!(login_step(start(), LoginEvent::UserFound(Ok(None)), &env), (LoginState::Finished, LoginAction::Respond(Err(Error::IncorectLogin)))));
    assert!(matches!(login_step(start(), LoginEvent::UserFound(Err(sqlx::Error::RowNotFound)), &env).1, LoginAction::Respond(Err(Error::DbUserNotFound(_)))));
    assert!(matches!(login_step(start(), LoginEvent::UserFound(Ok(Some(user(hash, None)))), &env).1, LoginAction::Respond(Err(Error::IncorectPassword))));
    let storing = LoginState::AwaitingStore { user_id: ID, refresh_token: String::from("t") };
    assert!(matches!(login_step(storing, LoginEvent::TokenStored(Err(sqlx::Error::PoolClosed)), &env).1, LoginAction::Respond(Err(Error::DbUpdateRefreshTokenFail(_)))));
}

fn access_token_for(id: u128) -> String {
    auth_api::features::auth::api_handlers::login_handler::issue_access_token(id, &environment()).unwrap()
}

#[test]
fn refresh_with_the_stored_token() {
    let env = environment();
    let access = access_token_for(ID);
    let header = format!("Bearer {}", access);
    let (state, action) = refresh_start(Some(&header), RefreshPayload { refresh_token: String::from("stored") });
    let token = match action {
        RefreshAction::DecodeToken { token } => token,
        _ => panic!("a bearer header must be decoded"),
    };
    assert_eq!(token, access);
    let claims = jsonwebtoken::decode::<serde_json::Value>(
        &token,
        &jsonwebtoken::DecodingKey::from_secret(b"flow-secret"),
        &jsonwebtoken::Validation::default(),
    )
    .map(|d| Claims {
        sub: d.claims["sub"].as_str().unwrap().to_owned(),
        exp: d.claims["exp"].as_u64().unwrap() as usize,
    });
    let (state, action) = refresh_step(state, RefreshEvent::TokenDecoded(claims), &env);
    assert!(matches!(action, RefreshAction::FindUser { id } if id == ID));
    let (state, action) = refresh_step(state, RefreshEvent::UserFound(Ok(Some(user(String::new(), Some(String::from("stored")))))), &env);
    let refresh = match action {
        RefreshAction::StoreRefreshToken { user_id, refresh_token } => {
            assert_eq!(user_id, ID);
            assert_ne!(refresh_token, "stored");
            refresh_token
        }
        _ => panic!("the stored refresh token must be accepted"),
    };
    match refresh_step(state, RefreshEvent::TokenStored(Ok(())), &env).1 {
        RefreshAction::Respond(Ok(r)) => {
            assert_eq!(r.refresh_token, refresh);
            assert_eq!(claims_of(&r.access_token)["sub"], uuid_to_string(ID));
        }
        _ => panic!("the refresh must succeed"),
    }
}

#[test]
fn refresh_failures() {
    let env = environment();
    let payload = || RefreshPayload { refresh_token: String::from("stored") };
    assert!(matches!(refresh_start(None, payload()), (RefreshState::Finished, RefreshAction::Respond(Err(Error::MissingToken)))));
    assert!(matches!(refresh_start(Some("Bearer"), payload()).1, RefreshAction::Respond(Err(Error::MissingToken))));
    let awaiting = || RefreshState::AwaitingClaims { payload_token: String::from("stored") };
    let bad = jsonwebtoken::errors::Error::from(jsonwebtoken::errors::ErrorKind::ExpiredSignature);
    assert!(matches!(refresh_step(awaiting(), RefreshEvent::TokenDecoded(Err(bad)), &env).1, RefreshAction::Respond(Err(Error::InvalidToken(_)))));
    let not_uuid = Claims { sub: String::from("carol"), exp: 0 };
    assert!(matches!(refresh_step(awaiting(), RefreshEvent::TokenDecoded(Ok(not_uuid)), &env).1, RefreshAction::Respond(Err(Error::InvalidClaimsUuid))));
    let looking = || RefreshState::AwaitingUser { payload_token: String::from("stored") };
    assert!(matches!(refresh_step(looking(), RefreshEvent::UserFound(Ok(None)), &env).1, RefreshAction::Respond(Err(Error::UserNotFound))));
    assert!(matches!(refresh_step(looking(), RefreshEvent::UserFound(Err(sqlx::Error::RowNotFound)), &env).1, RefreshAction::Respond(Err(Error::DbUserNotFound(_)))));
    let other = user(String::new(), Some(String::from("another")));
    assert!(matches!(refresh_step(looking(), RefreshEvent::UserFound(Ok(Some(other))), &env).1, RefreshAction::Respond(Err(Error::UserNotFound))));
    let none = user(String::new(), None);
    assert!(matches!(refresh_step(looking(), RefreshEvent::UserFound(Ok(Some(none))), &env).1, RefreshAction::Respond(Err(Error::UserNotFound))));
}
