use vstd::prelude::*;

use crate::common::response_payload::{ResponseEmptyData, ResponsePayload};
use crate::text::append_str;
use argon2::Error as Argon2Error;
use jsonwebtoken::errors::Error as JwtError;
use sqlx::Error as SqlxError;

verus! {

/// An error reported by `sqlx` when a query fails.
#[verifier::external_type_specification]
#[verifier::external_body]
pub struct ExSqlxError(SqlxError);

/// An error reported by `argon2` when hashing or verifying fails.
#[verifier::external_type_specification]
#[verifier::external_body]
pub struct ExArgon2Error(Argon2Error);

/// An error reported by `jsonwebtoken` when encoding or decoding fails.
#[verifier::external_type_specification]
#[verifier::external_body]
pub struct ExJwtError(JwtError);

/// The `Debug` text of a `sqlx` error, as `format!("{:?}", ..)` writes it.
/// The text depends on the error's contents, which are opaque here; nothing
/// is stated of it.
#[verifier::external_body]
pub(crate) fn sqlx_error_text(error: &SqlxError) -> String {
    format!("{:?}", error)
}

/// The `Debug` text of an `argon2` error, as `format!("{:?}", ..)` writes
/// it. Nothing is stated of it.
#[verifier::external_body]
pub(crate) fn argon2_error_text(error: &Argon2Error) -> String {
    format!("{:?}", error)
}

/// The `Debug` text of a `jsonwebtoken` error, as `format!("{:?}", ..)`
/// writes it. Nothing is stated of it.
#[verifier::external_body]
pub(crate) fn jwt_error_text(error: &JwtError) -> String {
    format!("{:?}", error)
}

/// HTTP status 401 Unauthorized.
pub const UNAUTHORIZED: u16 = 401;

/// HTTP status 403 Forbidden.
pub const FORBIDDEN: u16 = 403;

/// HTTP status 409 Conflict.
pub const CONFLICT: u16 = 409;

/// HTTP status 500 Internal Server Error.
pub const INTERNAL_SERVER_ERROR: u16 = 500;

/// The kinds of failure that the service distinguishes.
#[derive(Debug, Clone, Copy, PartialEq, Eq, Structural)]
pub enum ErrorKinde {
    UserExist,
    UserNotFound,
    AccessTokenMissing,
    Internal,
}

/// How a kind of failure is reported: its HTTP status, its code in the
/// payload and its message.
#[derive(Debug)]
pub struct ErrorMeta {
    pub kinde: ErrorKinde,
    pub status_code: u16,
    pub code: u64,
    pub message: String,
}

/// The failure that caused an error, kept for the logs.
#[derive(Debug)]
pub enum ErrorSource {
    Database(SqlxError),
    PasswordHash(Argon2Error),
    Token(JwtError),
}

/// An error of the service: how it is reported, and what caused it.
#[derive(Debug)]
pub struct Error {
    pub meta: ErrorMeta,
    pub parent: Option<ErrorSource>,
}

impl ErrorSource {
    /// The `Debug` text of the failure.
    pub(crate) fn text(&self) -> String {
        match self {
            ErrorSource::Database(e) => sqlx_error_text(e),
            ErrorSource::PasswordHash(e) => argon2_error_text(e),
            ErrorSource::Token(e) => jwt_error_text(e),
        }
    }
}

impl ErrorMeta {
    /// A user with the same name already exists: 409, code 1.
    pub fn user_exist() -> (res: ErrorMeta)
        ensures
            res.kinde == ErrorKinde::UserExist,
            res.status_code == CONFLICT,
            res.code == 1,
            res.message@ == "User alredy exist"@,
    {
        ErrorMeta {
            kinde: ErrorKinde::UserExist,
            status_code: CONFLICT,
            code: 1,
            message: String::from_str("User alredy exist"),
        }
    }

    /// No user matches: 409, code 2.
    pub fn user_not_found() -> (res: ErrorMeta)
        ensures
            res.kinde == ErrorKinde::UserNotFound,
            res.status_code == CONFLICT,
            res.code == 2,
            res.message@ == "User not found"@,
    {
        ErrorMeta {
            kinde: ErrorKinde::UserNotFound,
            status_code: CONFLICT,
            code: 2,
            message: String::from_str("User not found"),
        }
    }

    /// The request carries no usable access token: 401, code 3.
    pub fn access_token_missing() -> (res: ErrorMeta)
        ensures
            res.kinde == ErrorKinde::AccessTokenMissing,
            res.status_code == UNAUTHORIZED,
            res.code == 3,
            res.message@ == "Incorrect access token"@,
    {
        ErrorMeta {
            kinde: ErrorKinde::AccessTokenMissing,
            status_code: UNAUTHORIZED,
            code: 3,
            message: String::from_str("Incorrect access token"),
        }
    }

    /// Any other failure: 500, code 500.
    pub fn internal() -> (res: ErrorMeta)
        ensures
            res.kinde == ErrorKinde::Internal,
            res.status_code == INTERNAL_SERVER_ERROR,
            res.code == 500,
            res.message@ == "Internal server error"@,
    {
        ErrorMeta {
            kinde: ErrorKinde::Internal,
            status_code: INTERNAL_SERVER_ERROR,
            code: 500,
            message: String::from_str("Internal server error"),
        }
    }
}

impl From<ErrorMeta> for Error {
    fn from(meta: ErrorMeta) -> (res: Error) {
        Error { meta, parent: None }
    }
}

impl vstd::std_specs::convert::FromSpecImpl<ErrorMeta> for Error {
    open spec fn obeys_from_spec() -> bool {
        true
    }

    open spec fn from_spec(meta: ErrorMeta) -> Error {
        Error { meta, parent: None }
    }
}

/// Whether `e` is the internal error (500, code 500, "Internal server
/// error") caused by `source`.
pub open spec fn internal_caused_by(e: Error, source: ErrorSource) -> bool {
    &&& e.meta.kinde == ErrorKinde::Internal
    &&& e.meta.status_code == INTERNAL_SERVER_ERROR
    &&& e.meta.code == 500
    &&& e.meta.message@ == "Internal server error"@
    &&& e.parent == Some(source)
}

/// Whether `e` is the internal error caused by a failure of `argon2`.
pub open spec fn password_hash_failure(e: Error) -> bool {
    e.parent matches Some(ErrorSource::PasswordHash(x)) && internal_caused_by(
        e,
        ErrorSource::PasswordHash(x),
    )
}

/// Whether `e` is the "User alredy exist" error (409, code 1), with no
/// cause attached.
pub open spec fn user_exist_error(e: Error) -> bool {
    &&& e.meta.kinde == ErrorKinde::UserExist
    &&& e.meta.status_code == CONFLICT
    &&& e.meta.code == 1
    &&& e.meta.message@ == "User alredy exist"@
    &&& e.parent is None
}

/// Whether `e` is the "Incorrect access token" error (401, code 3), with no
/// cause attached.
pub open spec fn access_token_missing_error(e: Error) -> bool {
    &&& e.meta.kinde == ErrorKinde::AccessTokenMissing
    &&& e.meta.status_code == UNAUTHORIZED
    &&& e.meta.code == 3
    &&& e.meta.message@ == "Incorrect access token"@
    &&& e.parent is None
}

impl Error {
    /// An internal error caused by `source`.
    pub fn from_parent(source: ErrorSource) -> (res: Error)
        ensures
            res.meta.kinde == ErrorKinde::Internal,
            res.meta.status_code == INTERNAL_SERVER_ERROR,
            res.meta.code == 500,
            res.meta.message@ == "Internal server error"@,
            res.parent == Some(source),
    {
        Error { meta: ErrorMeta::internal(), parent: Some(source) }
    }

    /// The error for a failed query: `transform` turns the database's error
    /// code, where there is one, into the error to report; where there is no
    /// code or `transform` gives none, the failure is internal.
    pub fn from_db_error<F: Fn(&str) -> Option<Error>>(
        transform: F,
        code: Option<&str>,
        source: SqlxError,
    ) -> (res: Error)
        requires
            forall|c: &str| transform.requires((c,)),
        ensures
            match code {
                Some(c) => {
                    ||| exists|e: Error| transform.ensures((c,), Some(e)) && res == e
                    ||| transform.ensures((c,), None) && internal_caused_by(
                        res,
                        ErrorSource::Database(source),
                    )
                },
                None => internal_caused_by(res, ErrorSource::Database(source)),
            },
    {
        match code {
            Some(c) => match transform(c) {
                Some(e) => e,
                None => Error::from_parent(ErrorSource::Database(source)),
            },
            None => Error::from_parent(ErrorSource::Database(source)),
        }
    }

    /// The text of this error: `message: <message>, parent: <cause>`, where
    /// the cause is `None` or `Some(..)` around the `Debug` text of the
    /// failure that caused the error.
    pub fn text(&self) -> (res: String)
        ensures
            self.parent is None ==> res@ == "message: "@ + self.meta.message@ + ", parent: None"@,
            self.parent is Some ==> exists|cause: Seq<char>|
                res@ == "message: "@ + self.meta.message@ + ", parent: Some("@ + cause + ")"@,
    {
        let mut res = String::from_str("message: ");
        append_str(&mut res, self.meta.message.as_str());
        match &self.parent {
            None => {
                append_str(&mut res, ", parent: None");
            },
            Some(source) => {
                let cause = source.text();
                append_str(&mut res, ", parent: Some(");
                append_str(&mut res, cause.as_str());
                append_str(&mut res, ")");
                assert(res@ == "message: "@ + self.meta.message@ + ", parent: Some("@ + cause@ + ")"@);
            },
        }
        res
    }

    /// The HTTP status of the response to this error.
    pub fn status_code(&self) -> (res: u16)
        ensures
            res == self.meta.status_code,
    {
        self.meta.status_code
    }

    /// The payload of the response to this error: its code and message.
    pub fn error_response(&self) -> (res: ResponsePayload<ResponseEmptyData>)
        ensures
            res.error == self.meta.code,
            res.message@ == self.meta.message@,
    {
        ResponsePayload::error(self.meta.code, self.meta.message.clone())
    }
}

/// The error code that PostgreSQL reports for a unique-key violation.
pub open spec fn unique_violation_code() -> Seq<char> {
    seq!['2', '3', '5', '0', '5']
}

/// Whether a database error code is PostgreSQL's unique-key violation.
pub fn is_unique_violation(code: &str) -> (res: bool)
    ensures
        res == (code@ == unique_violation_code()),
{
    let expected = "23505";
    proof {
        reveal_strlit("23505");
        assert(expected@ =~= unique_violation_code());
    }
    crate::text::str_equal(code, expected)
}

/// The translation of database error codes used when a user is created: a
/// unique-key violation means that the user already exists.
pub fn user_exist_on_unique_violation(code: &str) -> (res: Option<Error>)
    ensures
        code@ == unique_violation_code() ==> (res matches Some(e) && user_exist_error(e)),
        code@ != unique_violation_code() ==> res is None,
{
    if is_unique_violation(code) {
        Some(Error::from(ErrorMeta::user_exist()))
    } else {
        None
    }
}

} // verus!
