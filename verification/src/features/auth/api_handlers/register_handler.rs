use vstd::prelude::*;

use sqlx::Error as SqlxError;

use crate::common::error::unique_violation_code;
use crate::common::error_response::{code_value, Code, ErrorMeta, ErrorResponse};
use crate::common::response_payload::{ResponseEmptyData, ResponsePayload};
use crate::features::auth::db::users::{new_user, NewUser};
use crate::features::auth::entity::user::NEW_USER_TIMESTAMP;
use crate::features::auth::errors::Error;
use crate::features::auth::password_hash::{self, password_hash_header, registered_hash};
use vstd::utf8::encode_utf8;

verus! {

/// The body of a registration request.
#[derive(Debug)]
pub struct Payload {
    pub login: String,
    pub password: String,
    pub email: String,
}

/// The reason why creating a user failed, given the database's error code
/// (where there is one): a unique-key violation means that the user
/// already exists, anything else that creation failed.
pub fn create_failure(code: Option<&str>, error: SqlxError) -> (res: Error)
    ensures
        (code matches Some(c) && c@ == unique_violation_code()) ==> res == Error::DbUserAlreadyExist(
            error,
        ),
        !(code matches Some(c) && c@ == unique_violation_code()) ==> res == Error::DbUserCreateFail(
            error,
        ),
{
    let exists = match code {
        Some(c) => crate::common::error::is_unique_violation(c),
        None => false,
    };
    if exists {
        Error::DbUserAlreadyExist(error)
    } else {
        Error::DbUserCreateFail(error)
    }
}

/// The answer to a registration: "User did registered" on success; a
/// "User with same login or email alredy exist" error (409, code 1) where
/// the user exists; an "Internal server error" (500, code 500) otherwise.
/// The parent of an error is the reason.
pub fn register_response(outcome: Result<(), Error>) -> (res: Result<
    ResponsePayload<ResponseEmptyData>,
    ErrorResponse,
>)
    ensures
        outcome is Ok <==> res is Ok,
        res matches Ok(p) ==> p.error == 0 && p.message@ == "User did registered"@,
        res matches Err(r) ==> r.parent is Some && outcome == Err::<(), Error>(r.parent->0),
        outcome matches Err(e) && e is DbUserAlreadyExist ==> (res matches Err(r) && r.meta.code
            == Code::UserExist && code_value(r.meta.code) == 1 && r.meta.status_code == 409
            && r.meta.message@ == "User with same login or email alredy exist"@),
        outcome matches Err(e) && !(e is DbUserAlreadyExist) ==> (res matches Err(r)
            && r.meta.code == Code::Internal && code_value(r.meta.code) == 500
            && r.meta.status_code == 500 && r.meta.message@ == "Internal server error"@),
{
    match outcome {
        Ok(()) => Ok(ResponsePayload::succes_and_empty(String::from_str("User did registered"))),
        Err(e) => {
            let exists = match &e {
                Error::DbUserAlreadyExist(_) => true,
                _ => false,
            };
            if exists {
                Err(ErrorResponse { meta: ErrorMeta::user_exist(), parent: Some(e) })
            } else {
                Err(ErrorResponse { meta: ErrorMeta::internal(), parent: Some(e) })
            }
        },
    }
}

} // verus!

verus! {

/// Where a registration stands.
pub enum RegisterState {
    /// The user is being inserted.
    AwaitingCreate,
    /// The answer was given.
    Finished,
}

/// What the database answered to the insertion.
pub enum RegisterEvent {
    Created,
    /// The insertion failed, with the database's error code where there is one.
    CreateFailed { code: Option<String>, error: SqlxError },
}

/// What the server is to do next.
pub enum RegisterAction {
    /// Insert this row into the `users` table.
    CreateUser { user: NewUser },
    /// Answer the request.
    Respond(Result<(), Error>),
}

/// The first step of a registration: hash the password and insert the
/// user with the hash, the email not yet verified.
pub fn register_start(payload: Payload) -> (res: (RegisterState, RegisterAction))
    ensures
        res.0 is Finished <==> res.1 is Respond,
        res.1 matches RegisterAction::CreateUser { user } ==> user.username@ == payload.login@
            && user.email@ == payload.email@ && registered_hash(payload.password@, user.hash@)
            && password_hash_header().is_prefix_of(user.hash@)
            && !user.email_verified && !user.is_delete && user.created == NEW_USER_TIMESTAMP
            && user.updated == NEW_USER_TIMESTAMP,
        res.1 matches RegisterAction::Respond(r) ==> (r matches Err(e) && e is PasswordHashingFail),
        encode_utf8(payload.password@).len() <= 0xFFFF_FFFF ==> res.1 is CreateUser,
{
    match password_hash::new(payload.password.as_str()) {
        Ok(hash) => {
            let user = new_user(payload.login.as_str(), hash.as_str(), payload.email.as_str(), false);
            (RegisterState::AwaitingCreate, RegisterAction::CreateUser { user })
        },
        Err(e) => (RegisterState::Finished, RegisterAction::Respond(Err(Error::password_hashing_fail(e)))),
    }
}

/// The answer once the insertion is done: success, or why it failed (a
/// unique-key violation means that the user exists).
pub fn register_step(state: RegisterState, event: RegisterEvent) -> (res: (RegisterState, RegisterAction))
    requires
        state is AwaitingCreate,
    ensures
        res.0 is Finished,
        event is Created ==> res.1 == RegisterAction::Respond(Ok(())),
        event matches RegisterEvent::CreateFailed { code, error } ==> (res.1 matches RegisterAction::Respond(Err(e))
            && ((code matches Some(c) && c@ == unique_violation_code()) ==> e
            == Error::DbUserAlreadyExist(error))
            && (!(code matches Some(c) && c@ == unique_violation_code()) ==> e
            == Error::DbUserCreateFail(error))),
{
    match event {
        RegisterEvent::Created => (RegisterState::Finished, RegisterAction::Respond(Ok(()))),
        RegisterEvent::CreateFailed { code, error } => {
            let code_text: Option<&str> = match &code {
                Some(c) => Some(c.as_str()),
                None => None,
            };
            (RegisterState::Finished, RegisterAction::Respond(Err(create_failure(code_text, error))))
        },
    }
}

} // verus!
