use vstd::prelude::*;

use sqlx::Error as SqlxError;

use crate::common::configuration::Environment;
use crate::common::error_response::{code_value, Code, ErrorMeta, ErrorResponse};
use crate::common::response_payload::ResponsePayload;
use crate::common::user_id::{uuid_hyphenated, uuid_to_string};
use crate::features::auth::errors::Error;
use crate::features::auth::jwt::token::{self, expiry, jwt_hs256, MAX_CLOCK_SECONDS, MAX_TOKEN_MINUTES};
use crate::features::auth::password_hash;
use crate::features::auth::random_string::{self, is_alphanumeric};
use crate::features::auth::entity::User;
use vstd::utf8::encode_utf8;

verus! {

/// The body of a login request.
pub struct Payload {
    pub login: String,
    pub password: String,
}

/// The body of a successful login or token refresh: a new access token and
/// a new refresh token.
pub struct Response {
    pub access_token: String,
    pub refresh_token: String,
}

/// The user to log in, given what the lookup by login name returned and
/// the password of the request: a failed lookup is `DbUserNotFound`, no
/// such user `IncorectLogin`, a hash that cannot be checked
/// `PasswordVerifyFail` with the failure of `argon2`, a wrong password
/// `IncorectPassword`.
pub fn authenticate(found: Result<Option<User>, SqlxError>, password: &str) -> (res: Result<User, Error>)
    ensures
        found matches Err(x) ==> res == Err::<User, Error>(Error::DbUserNotFound(x)),
        found matches Ok(None) ==> (res matches Err(e) && e is IncorectLogin),
        found matches Ok(Some(u)) ==> match res {
            Ok(v) => v == u && password_hash::argon2_verified(u.hash@, encode_utf8(password@))
                == Some(true),
            Err(e) => (e is PasswordVerifyFail && password_hash::argon2_verified(
                u.hash@,
                encode_utf8(password@),
            ) is None) || (e is IncorectPassword && password_hash::argon2_verified(
                u.hash@,
                encode_utf8(password@),
            ) == Some(false)),
        },
        found matches Ok(Some(u)) ==> (password_hash::verifies(password@, u.hash@) ==> res
            == Ok::<User, Error>(u)),
{
    let user = match found {
        Err(e) => return Err(Error::DbUserNotFound(e)),
        Ok(None) => return Err(Error::IncorectLogin),
        Ok(Some(user)) => user,
    };
    let is_password_correct = password_hash::verify(user.hash.as_str(), password);
    match is_password_correct {
        Err(e) => Err(Error::password_verify_fail(e)),
        Ok(false) => Err(Error::IncorectPassword),
        Ok(true) => Ok(user),
    }
}

/// A fresh refresh token: 256 random alphanumeric characters.
pub fn new_refresh_token() -> (res: String)
    ensures
        res@.len() == 256,
        forall|i: int| 0 <= i < res@.len() ==> is_alphanumeric(#[trigger] res@[i]),
{
    random_string::new(256)
}

/// The outcome of storing the new refresh token: a failure is
/// `DbUpdateRefreshTokenFail`.
pub fn refresh_token_stored(stored: Result<(), SqlxError>) -> (res: Result<(), Error>)
    ensures
        stored is Ok <==> res is Ok,
        stored matches Err(x) ==> res == Err::<(), Error>(Error::DbUpdateRefreshTokenFail(x)),
{
    match stored {
        Ok(()) => Ok(()),
        Err(e) => Err(Error::DbUpdateRefreshTokenFail(e)),
    }
}

/// Whether the token lifetime of `environment` is one that `chrono`
/// accepts as a number of minutes.
pub open spec fn valid_duration(environment: Environment) -> bool {
    -MAX_TOKEN_MINUTES <= environment.jwt_duration <= MAX_TOKEN_MINUTES
}

/// The access token of the user `user_id`: its subject is the text of the
/// identifier, it is signed with the secret of `environment` and lives for
/// its `jwt_duration` minutes from now.
pub fn issue_access_token(user_id: u128, environment: &Environment) -> (res: Result<String, Error>)
    requires
        valid_duration(*environment),
    ensures
        res is Ok,
        exists|now: int| 0 <= now <= MAX_CLOCK_SECONDS && res->Ok_0@ == #[trigger] jwt_hs256(
            uuid_hyphenated(user_id),
            expiry(now, environment.jwt_duration as int),
            environment.jwt_secret@,
        ),
{
    token::encode(
        uuid_to_string(user_id),
        environment.jwt_secret.as_str(),
        environment.jwt_duration,
    )
}

/// The answer to a login or refresh request: the tokens in a successful
/// payload with the message "User did created", or, whatever went wrong,
/// a "Bad credentials" error (403, code 2) whose parent is the reason.
pub fn token_response(outcome: Result<Response, Error>) -> (res: Result<
    ResponsePayload<Response>,
    ErrorResponse,
>)
    ensures
        outcome is Ok <==> res is Ok,
        res matches Ok(p) ==> p.error == 0 && p.message@ == "User did created"@ && outcome
            == Ok::<Response, Error>(p.data),
        res matches Err(r) ==> r.meta.code == Code::UserNotFound && code_value(r.meta.code) == 2
            && r.meta.status_code == 403 && r.meta.message@ == "Bad credentials"@ && r.parent
            is Some && outcome == Err::<Response, Error>(r.parent->0),
{
    match outcome {
        Ok(response) => Ok(ResponsePayload::succes(String::from_str("User did created"), response)),
        Err(e) => Err(ErrorResponse { meta: ErrorMeta::user_not_found(), parent: Some(e) }),
    }
}

} // verus!

verus! {

/// Where a login stands between two calls to the database.
pub enum LoginState {
    /// The user is being looked up; the password of the request is kept.
    AwaitingUser { password: String },
    /// The new refresh token of the user is being stored.
    AwaitingStore { user_id: u128, refresh_token: String },
    /// The answer was given.
    Finished,
}

/// What the database answered.
pub enum LoginEvent {
    /// The lookup of the user by login name.
    UserFound(Result<Option<User>, SqlxError>),
    /// The storing of the refresh token.
    TokenStored(Result<(), SqlxError>),
}

/// What the server is to do next.
pub enum LoginAction {
    /// Look up the user with this login name.
    FindUser { login: String },
    /// Store this refresh token for the user.
    StoreRefreshToken { user_id: u128, refresh_token: String },
    /// Answer the request.
    Respond(Result<Response, Error>),
}

/// Whether `event` is the one that `state` waits for.
pub open spec fn login_awaits(state: LoginState, event: LoginEvent) -> bool {
    match state {
        LoginState::AwaitingUser { .. } => event is UserFound,
        LoginState::AwaitingStore { .. } => event is TokenStored,
        LoginState::Finished => false,
    }
}

/// Whether `t` is a refresh token that `new_refresh_token` may return.
pub open spec fn fresh_refresh_token(t: Seq<char>) -> bool {
    t.len() == 256 && forall|i: int| 0 <= i < t.len() ==> is_alphanumeric(#[trigger] t[i])
}

/// Whether `token` is an access token issued now, or at some moment the
/// clock may show, for the user `user_id` under `environment`.
pub open spec fn access_token_for(token: Seq<char>, user_id: u128, environment: Environment) -> bool {
    exists|now: int| 0 <= now <= MAX_CLOCK_SECONDS && token == #[trigger] jwt_hs256(
        uuid_hyphenated(user_id),
        expiry(now, environment.jwt_duration as int),
        environment.jwt_secret@,
    )
}

/// The first step of a login: look the user up by the login name.
pub fn login_start(payload: Payload) -> (res: (LoginState, LoginAction))
    ensures
        res.0 == (LoginState::AwaitingUser { password: payload.password }),
        res.1 == (LoginAction::FindUser { login: payload.login }),
{
    (LoginState::AwaitingUser { password: payload.password }, LoginAction::FindUser { login: payload.login })
}

/// The next step of a login, given what the database answered. A found
/// user whose password matches gets a fresh refresh token to store; once
/// it is stored the answer carries it with a new access token. Every
/// failure ends the login with its reason.
pub fn login_step(state: LoginState, event: LoginEvent, environment: &Environment) -> (res: (
    LoginState,
    LoginAction,
))
    requires
        login_awaits(state, event),
        event matches LoginEvent::TokenStored(Ok(_)) ==> valid_duration(*environment),
    ensures
        res.0 is Finished <==> res.1 is Respond,
        state is AwaitingUser ==> match event {
            LoginEvent::UserFound(Err(x)) => res.1 == LoginAction::Respond(
                Err(Error::DbUserNotFound(x)),
            ),
            LoginEvent::UserFound(Ok(None)) => res.1 matches LoginAction::Respond(Err(e))
                && e is IncorectLogin,
            LoginEvent::UserFound(Ok(Some(u))) => {
                let verified = password_hash::argon2_verified(
                    u.hash@,
                    encode_utf8(state->password@),
                );
                &&& verified == Some(true) ==> (res.1 matches LoginAction::StoreRefreshToken {
                    user_id,
                    refresh_token,
                } && user_id == u.id && fresh_refresh_token(refresh_token@) && res.0
                    == (LoginState::AwaitingStore { user_id, refresh_token }))
                &&& verified == Some(false) ==> (res.1 matches LoginAction::Respond(Err(e))
                    && e is IncorectPassword)
                &&& verified is None ==> (res.1 matches LoginAction::Respond(Err(e))
                    && e is PasswordVerifyFail)
                &&& password_hash::verifies(state->password@, u.hash@) ==> res.1
                    is StoreRefreshToken
            },
            _ => true,
        },
        state matches LoginState::AwaitingStore { user_id, refresh_token } ==> match event {
            LoginEvent::TokenStored(Ok(())) => res.1 matches LoginAction::Respond(Ok(r))
                && r.refresh_token == refresh_token && access_token_for(
                r.access_token@,
                user_id,
                *environment,
            ),
            LoginEvent::TokenStored(Err(x)) => res.1 == LoginAction::Respond(
                Err(Error::DbUpdateRefreshTokenFail(x)),
            ),
            _ => true,
        },
{
    match state {
        LoginState::AwaitingUser { password } => match event {
            LoginEvent::UserFound(found) => match authenticate(found, password.as_str()) {
                Ok(user) => {
                    let refresh_token = new_refresh_token();
                    let action = LoginAction::StoreRefreshToken {
                        user_id: user.id,
                        refresh_token: refresh_token.clone(),
                    };
                    (LoginState::AwaitingStore { user_id: user.id, refresh_token }, action)
                },
                Err(e) => (LoginState::Finished, LoginAction::Respond(Err(e))),
            },
            LoginEvent::TokenStored(_) => (LoginState::Finished, LoginAction::Respond(Err(Error::UserNotFound))),
        },
        LoginState::AwaitingStore { user_id, refresh_token } => match event {
            LoginEvent::TokenStored(stored) => (
                LoginState::Finished,
                LoginAction::Respond(finish_tokens(stored, user_id, refresh_token, environment)),
            ),
            LoginEvent::UserFound(_) => (LoginState::Finished, LoginAction::Respond(Err(Error::UserNotFound))),
        },
        LoginState::Finished => (LoginState::Finished, LoginAction::Respond(Err(Error::UserNotFound))),
    }
}

/// The answer once the refresh token was stored (or failed to be): the
/// stored refresh token with a new access token for the user.
pub fn finish_tokens(
    stored: Result<(), SqlxError>,
    user_id: u128,
    refresh_token: String,
    environment: &Environment,
) -> (res: Result<Response, Error>)
    requires
        stored is Ok ==> valid_duration(*environment),
    ensures
        stored is Ok ==> (res matches Ok(r) && r.refresh_token == refresh_token
            && access_token_for(r.access_token@, user_id, *environment)),
        stored matches Err(x) ==> res == Err::<Response, Error>(Error::DbUpdateRefreshTokenFail(x)),
{
    match refresh_token_stored(stored) {
        Err(e) => Err(e),
        Ok(()) => match issue_access_token(user_id, environment) {
            Ok(access_token) => Ok(Response { access_token, refresh_token }),
            Err(e) => Err(e),
        },
    }
}

} // verus!
