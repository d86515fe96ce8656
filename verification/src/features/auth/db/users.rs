use vstd::prelude::*;

use sqlx::Error as SqlxError;

use crate::common::error::{
    internal_caused_by, unique_violation_code, user_exist_error, user_exist_on_unique_violation,
    Error, ErrorSource,
};
use crate::features::auth::entity::user::NEW_USER_TIMESTAMP;

verus! {

/// The values of a new row of the `users` table.
#[derive(Debug)]
pub struct NewUser {
    pub username: String,
    pub hash: String,
    pub email: String,
    pub email_verified: bool,
    pub created: i64,
    pub updated: i64,
    pub is_delete: bool,
}

/// The row to insert for a new user: stored as created and updated
/// `NEW_USER_TIMESTAMP` seconds after the epoch, and not deleted.
pub fn new_user(username: &str, hash: &str, email: &str, email_verified: bool) -> (res: NewUser)
    ensures
        res.username@ == username@,
        res.hash@ == hash@,
        res.email@ == email@,
        res.email_verified == email_verified,
        res.created == NEW_USER_TIMESTAMP,
        res.updated == NEW_USER_TIMESTAMP,
        !res.is_delete,
{
    NewUser {
        username: String::from_str(username),
        hash: String::from_str(hash),
        email: String::from_str(email),
        email_verified,
        created: NEW_USER_TIMESTAMP,
        updated: NEW_USER_TIMESTAMP,
        is_delete: false,
    }
}

/// The error for a failed insertion of a user, given the database's error
/// code where there is one: a unique-key violation is "User alredy exist"
/// (409, code 1); anything else is an internal error caused by `source`.
pub fn create_error(code: Option<&str>, source: SqlxError) -> (res: Error)
    ensures
        (code matches Some(c) && c@ == unique_violation_code()) ==> user_exist_error(res),
        !(code matches Some(c) && c@ == unique_violation_code()) ==> internal_caused_by(
            res,
            ErrorSource::Database(source),
        ),
{
    Error::from_db_error(user_exist_on_unique_violation, code, source)
}

/// The error for a failed lookup of a user: internal, caused by `source`.
pub fn find_error(source: SqlxError) -> (res: Error)
    ensures
        internal_caused_by(res, ErrorSource::Database(source)),
{
    Error::from_parent(ErrorSource::Database(source))
}

} // verus!
