use vstd::prelude::*;

use jsonwebtoken::errors::Error as JwtError;
use sqlx::Error as SqlxError;

use crate::common::authorization::bearer_token_of;
use crate::common::configuration::Environment;
use crate::common::user_id::uuid_parse;
use crate::features::auth::api_handlers::login_handler::{
    access_token_for, finish_tokens, fresh_refresh_token, new_refresh_token, valid_duration,
    Response,
};
use crate::features::auth::entity::User;
use crate::features::auth::errors::Error;
use crate::features::auth::jwt::claims::Claims;
use crate::features::auth::jwt::token;
use crate::text::str_equal;

verus! {

/// The body of a token refresh request.
pub struct Payload {
    pub refresh_token: String,
}

/// Whether the refresh token of a request matches the one stored for the
/// user: there is a stored token, it is not empty, and it is the same.
pub fn validate_token(db_token: &Option<String>, payload_token: &str) -> (res: bool)
    ensures
        res == (db_token matches Some(t) && t@.len() > 0 && t@ == payload_token@),
{
    match db_token {
        Some(t) => !t.as_str().is_empty() && str_equal(t.as_str(), payload_token),
        None => false,
    }
}

/// The user that the access token names, given what the lookup by
/// identifier returned: a failed lookup is `DbUserNotFound`, no such user
/// `UserNotFound`.
pub fn found_user(found: Result<Option<User>, SqlxError>) -> (res: Result<User, Error>)
    ensures
        found matches Err(x) ==> res == Err::<User, Error>(Error::DbUserNotFound(x)),
        found matches Ok(None) ==> (res matches Err(e) && e is UserNotFound),
        found matches Ok(Some(u)) ==> res == Ok::<User, Error>(u),
{
    match found {
        Err(e) => Err(Error::DbUserNotFound(e)),
        Ok(None) => Err(Error::UserNotFound),
        Ok(Some(user)) => Ok(user),
    }
}

/// The user, if the refresh token of the request is the one stored for
/// them; otherwise `UserNotFound`.
pub fn check_refresh_token(user: User, payload_token: &str) -> (res: Result<User, Error>)
    ensures
        validate_token_spec(user.refresh_token, payload_token@) ==> res == Ok::<User, Error>(user),
        !validate_token_spec(user.refresh_token, payload_token@) ==> (res matches Err(e)
            && e is UserNotFound),
{
    if !validate_token(&user.refresh_token, payload_token) {
        return Err(Error::UserNotFound);
    }
    Ok(user)
}

/// Whether `payload_token` matches the stored refresh token `db_token`.
pub open spec fn validate_token_spec(db_token: Option<String>, payload_token: Seq<char>) -> bool {
    db_token matches Some(t) && t@.len() > 0 && t@ == payload_token
}

} // verus!

verus! {

/// Law: a user without a stored refresh token, or with an empty one, can
/// never refresh, whatever token the request carries.
pub proof fn lemma_no_stored_token_never_validates(db_token: Option<String>, payload_token: Seq<char>)
    requires
        db_token is None || db_token->0@.len() == 0,
    ensures
        !validate_token_spec(db_token, payload_token),
{
}

/// Law: the stored token validates exactly the request that carries it.
pub proof fn lemma_stored_token_validates_itself(stored: String, payload_token: Seq<char>)
    requires
        stored@.len() > 0,
    ensures
        validate_token_spec(Some(stored), payload_token) <==> payload_token == stored@,
{
}

} // verus!

verus! {

/// Where a token refresh stands between two outside calls.
pub enum RefreshState {
    /// The access token of the request is being decoded; the refresh
    /// token of the request is kept.
    AwaitingClaims { payload_token: String },
    /// The user that the access token names is being looked up.
    AwaitingUser { payload_token: String },
    /// The new refresh token of the user is being stored.
    AwaitingStore { user_id: u128, refresh_token: String },
    /// The answer was given.
    Finished,
}

/// What the outside call answered.
pub enum RefreshEvent {
    /// `jsonwebtoken::decode` of the access token.
    TokenDecoded(Result<Claims, JwtError>),
    /// The lookup of the user by identifier.
    UserFound(Result<Option<User>, SqlxError>),
    /// The storing of the refresh token.
    TokenStored(Result<(), SqlxError>),
}

/// What the server is to do next.
pub enum RefreshAction {
    /// Decode this access token.
    DecodeToken { token: String },
    /// Look up the user with this identifier.
    FindUser { id: u128 },
    /// Store this refresh token for the user.
    StoreRefreshToken { user_id: u128, refresh_token: String },
    /// Answer the request.
    Respond(Result<Response, Error>),
}

/// Whether `event` is the one that `state` waits for.
pub open spec fn refresh_awaits(state: RefreshState, event: RefreshEvent) -> bool {
    match state {
        RefreshState::AwaitingClaims { .. } => event is TokenDecoded,
        RefreshState::AwaitingUser { .. } => event is UserFound,
        RefreshState::AwaitingStore { .. } => event is TokenStored,
        RefreshState::Finished => false,
    }
}

/// The first step of a token refresh: decode the `Bearer` access token of
/// the `Authorization` header, or answer `MissingToken`.
pub fn refresh_start(authorization: Option<&str>, payload: Payload) -> (res: (RefreshState, RefreshAction))
    ensures
        (authorization matches Some(h) && bearer_token_of(h@) is Some) ==> res.0 == (
        RefreshState::AwaitingClaims { payload_token: payload.refresh_token }),
        (authorization matches Some(h) && bearer_token_of(h@) is Some) ==> (res.1 matches RefreshAction::DecodeToken { token }
            && Some(token@) == bearer_token_of(authorization->0@)),
        !(authorization matches Some(h) && bearer_token_of(h@) is Some) ==> res.0 is Finished,
        !(authorization matches Some(h) && bearer_token_of(h@) is Some) ==> (res.1 matches RefreshAction::Respond(Err(e))
            && e is MissingToken),
{
    match token::extract_from_headers(authorization) {
        Ok(t) => (
            RefreshState::AwaitingClaims { payload_token: payload.refresh_token },
            RefreshAction::DecodeToken { token: String::from_str(t) },
        ),
        Err(e) => (RefreshState::Finished, RefreshAction::Respond(Err(e))),
    }
}

/// The next step of a token refresh, given what the outside call
/// answered. The access token must decode to the identifier of a user
/// whose stored refresh token is the one of the request; that user gets a
/// fresh refresh token to store, and once it is stored the answer carries
/// it with a new access token. Every failure ends the refresh with its
/// reason.
pub fn refresh_step(state: RefreshState, event: RefreshEvent, environment: &Environment) -> (res: (
    RefreshState,
    RefreshAction,
))
    requires
        refresh_awaits(state, event),
        event matches RefreshEvent::TokenStored(Ok(_)) ==> valid_duration(*environment),
    ensures
        res.0 is Finished <==> res.1 is Respond,
        state matches RefreshState::AwaitingClaims { payload_token } ==> match event {
            RefreshEvent::TokenDecoded(Err(x)) => res.1 == RefreshAction::Respond(
                Err(Error::InvalidToken(x)),
            ),
            RefreshEvent::TokenDecoded(Ok(c)) => match uuid_parse(c.sub@) {
                Some(id) => res.0 == (RefreshState::AwaitingUser { payload_token })
                    && res.1 == (RefreshAction::FindUser { id }),
                None => res.1 matches RefreshAction::Respond(Err(e)) && e is InvalidClaimsUuid,
            },
            _ => true,
        },
        state matches RefreshState::AwaitingUser { payload_token } ==> match event {
            RefreshEvent::UserFound(Err(x)) => res.1 == RefreshAction::Respond(
                Err(Error::DbUserNotFound(x)),
            ),
            RefreshEvent::UserFound(Ok(None)) => res.1 matches RefreshAction::Respond(Err(e))
                && e is UserNotFound,
            RefreshEvent::UserFound(Ok(Some(u))) => if validate_token_spec(
                u.refresh_token,
                payload_token@,
            ) {
                res.1 matches RefreshAction::StoreRefreshToken { user_id, refresh_token }
                    && user_id == u.id && fresh_refresh_token(refresh_token@) && res.0 == (
                RefreshState::AwaitingStore { user_id, refresh_token })
            } else {
                res.1 matches RefreshAction::Respond(Err(e)) && e is UserNotFound
            },
            _ => true,
        },
        state matches RefreshState::AwaitingStore { user_id, refresh_token } ==> match event {
            RefreshEvent::TokenStored(Ok(())) => res.1 matches RefreshAction::Respond(Ok(r))
                && r.refresh_token == refresh_token && access_token_for(
                r.access_token@,
                user_id,
                *environment,
            ),
            RefreshEvent::TokenStored(Err(x)) => res.1 == RefreshAction::Respond(
                Err(Error::DbUpdateRefreshTokenFail(x)),
            ),
            _ => true,
        },
{
    match state {
        RefreshState::AwaitingClaims { payload_token } => match event {
            RefreshEvent::TokenDecoded(decoded) => {
                let claims = match token::decode(decoded) {
                    Ok(c) => c,
                    Err(e) => return (RefreshState::Finished, RefreshAction::Respond(Err(e))),
                };
                match claims.uuid() {
                    Ok(id) => (RefreshState::AwaitingUser { payload_token }, RefreshAction::FindUser { id }),
                    Err(e) => (RefreshState::Finished, RefreshAction::Respond(Err(e))),
                }
            },
            _ => (RefreshState::Finished, RefreshAction::Respond(Err(Error::UserNotFound))),
        },
        RefreshState::AwaitingUser { payload_token } => match event {
            RefreshEvent::UserFound(found) => {
                let user = match found_user(found) {
                    Ok(u) => u,
                    Err(e) => return (RefreshState::Finished, RefreshAction::Respond(Err(e))),
                };
                match check_refresh_token(user, payload_token.as_str()) {
                    Ok(user) => {
                        let refresh_token = new_refresh_token();
                        let action = RefreshAction::StoreRefreshToken {
                            user_id: user.id,
                            refresh_token: refresh_token.clone(),
                        };
                        (RefreshState::AwaitingStore { user_id: user.id, refresh_token }, action)
                    },
                    Err(e) => (RefreshState::Finished, RefreshAction::Respond(Err(e))),
                }
            },
            _ => (RefreshState::Finished, RefreshAction::Respond(Err(Error::UserNotFound))),
        },
        RefreshState::AwaitingStore { user_id, refresh_token } => match event {
            RefreshEvent::TokenStored(stored) => (
                RefreshState::Finished,
                RefreshAction::Respond(finish_tokens(stored, user_id, refresh_token, environment)),
            ),
            _ => (RefreshState::Finished, RefreshAction::Respond(Err(Error::UserNotFound))),
        },
        RefreshState::Finished => (RefreshState::Finished, RefreshAction::Respond(Err(Error::UserNotFound))),
    }
}

} // verus!
