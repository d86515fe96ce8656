use vstd::prelude::*;

use argon2::Error as Argon2Error;
use jsonwebtoken::errors::Error as JwtError;
use sqlx::Error as SqlxError;

use crate::common::error::{
    argon2_error_text, jwt_error_text, password_hash_failure, sqlx_error_text, Error as ServiceError,
    ErrorSource,
};
use crate::text::append_str;

verus! {

/// What went wrong while serving an authentication request.
#[derive(Debug)]
pub enum Error {
    InvalidTokenData(JwtError),
    InvalidToken(JwtError),
    MissingToken,
    InvalidClaimsUuid,
    PasswordHashingFail(Argon2Error),
    PasswordVerifyFail(Argon2Error),
    DbUserAlreadyExist(SqlxError),
    DbUserCreateFail(SqlxError),
    DbUserNotFound(SqlxError),
    DbUpdateRefreshTokenFail(SqlxError),
    IncorectLogin,
    IncorectPassword,
    UserNotFound,
}

/// The name of the variant of `e`, as `Debug` writes it.
pub open spec fn variant_name(e: Error) -> Seq<char> {
    match e {
        Error::InvalidTokenData(_) => "InvalidTokenData"@,
        Error::InvalidToken(_) => "InvalidToken"@,
        Error::MissingToken => "MissingToken"@,
        Error::InvalidClaimsUuid => "InvalidClaimsUuid"@,
        Error::PasswordHashingFail(_) => "PasswordHashingFail"@,
        Error::PasswordVerifyFail(_) => "PasswordVerifyFail"@,
        Error::DbUserAlreadyExist(_) => "DbUserAlreadyExist"@,
        Error::DbUserCreateFail(_) => "DbUserCreateFail"@,
        Error::DbUserNotFound(_) => "DbUserNotFound"@,
        Error::DbUpdateRefreshTokenFail(_) => "DbUpdateRefreshTokenFail"@,
        Error::IncorectLogin => "IncorectLogin"@,
        Error::IncorectPassword => "IncorectPassword"@,
        Error::UserNotFound => "UserNotFound"@,
    }
}

/// Whether `e` carries the failure of an outside crate.
pub open spec fn carries_cause(e: Error) -> bool {
    match e {
        Error::InvalidTokenData(_) => true,
        Error::InvalidToken(_) => true,
        Error::MissingToken => false,
        Error::InvalidClaimsUuid => false,
        Error::PasswordHashingFail(_) => true,
        Error::PasswordVerifyFail(_) => true,
        Error::DbUserAlreadyExist(_) => true,
        Error::DbUserCreateFail(_) => true,
        Error::DbUserNotFound(_) => true,
        Error::DbUpdateRefreshTokenFail(_) => true,
        Error::IncorectLogin => false,
        Error::IncorectPassword => false,
        Error::UserNotFound => false,
    }
}

/// `name(cause)`.
pub open spec fn wrapped_text(name: Seq<char>, cause: Seq<char>) -> Seq<char> {
    name + "("@ + cause + ")"@
}

/// Whether `text` is the `Debug` text of `e`: the name of its variant,
/// followed, where it carries the failure of an outside crate, by the
/// `Debug` text of that failure in brackets.
pub open spec fn debug_text_of(e: Error, text: Seq<char>) -> bool {
    if carries_cause(e) {
        exists|cause: Seq<char>| #[trigger] wrapped_text(variant_name(e), cause) == text
    } else {
        text == variant_name(e)
    }
}

/// `name(cause)`, as a string.
fn wrapped(name: &str, cause: String) -> (res: String)
    ensures
        res@ == wrapped_text(name@, cause@),
{
    let mut res = String::from_str(name);
    append_str(&mut res, "(");
    append_str(&mut res, cause.as_str());
    append_str(&mut res, ")");
    res
}

impl Error {
    /// The `Debug` text of this error.
    pub fn debug_text(&self) -> (res: String)
        ensures
            debug_text_of(*self, res@),
    {
        match self {
            Error::InvalidTokenData(e) => {
                let cause = jwt_error_text(e);
                let res = wrapped("InvalidTokenData", cause);
                assert(wrapped_text(variant_name(*self), cause@) == res@);
                res
            },
            Error::InvalidToken(e) => {
                let cause = jwt_error_text(e);
                let res = wrapped("InvalidToken", cause);
                assert(wrapped_text(variant_name(*self), cause@) == res@);
                res
            },
            Error::MissingToken => String::from_str("MissingToken"),
            Error::InvalidClaimsUuid => String::from_str("InvalidClaimsUuid"),
            Error::PasswordHashingFail(e) => {
                let cause = argon2_error_text(e);
                let res = wrapped("PasswordHashingFail", cause);
                assert(wrapped_text(variant_name(*self), cause@) == res@);
                res
            },
            Error::PasswordVerifyFail(e) => {
                let cause = argon2_error_text(e);
                let res = wrapped("PasswordVerifyFail", cause);
                assert(wrapped_text(variant_name(*self), cause@) == res@);
                res
            },
            Error::DbUserAlreadyExist(e) => {
                let cause = sqlx_error_text(e);
                let res = wrapped("DbUserAlreadyExist", cause);
                assert(wrapped_text(variant_name(*self), cause@) == res@);
                res
            },
            Error::DbUserCreateFail(e) => {
                let cause = sqlx_error_text(e);
                let res = wrapped("DbUserCreateFail", cause);
                assert(wrapped_text(variant_name(*self), cause@) == res@);
                res
            },
            Error::DbUserNotFound(e) => {
                let cause = sqlx_error_text(e);
                let res = wrapped("DbUserNotFound", cause);
                assert(wrapped_text(variant_name(*self), cause@) == res@);
                res
            },
            Error::DbUpdateRefreshTokenFail(e) => {
                let cause = sqlx_error_text(e);
                let res = wrapped("DbUpdateRefreshTokenFail", cause);
                assert(wrapped_text(variant_name(*self), cause@) == res@);
                res
            },
            Error::IncorectLogin => String::from_str("IncorectLogin"),
            Error::IncorectPassword => String::from_str("IncorectPassword"),
            Error::UserNotFound => String::from_str("UserNotFound"),
        }
    }

    /// The reason why a password could not be checked: the failure of
    /// `argon2` behind the internal error that the password check reported.
    pub fn password_verify_fail(failure: ServiceError) -> (res: Error)
        requires
            password_hash_failure(failure),
        ensures
            failure.parent matches Some(ErrorSource::PasswordHash(x)) ==> res
                == Error::PasswordVerifyFail(x),
    {
        match failure.parent {
            Some(ErrorSource::PasswordHash(x)) => Error::PasswordVerifyFail(x),
            _ => unreached(),
        }
    }

    /// The reason why a password could not be hashed: the failure of
    /// `argon2` behind the internal error that the hashing reported.
    pub fn password_hashing_fail(failure: ServiceError) -> (res: Error)
        requires
            password_hash_failure(failure),
        ensures
            failure.parent matches Some(ErrorSource::PasswordHash(x)) ==> res
                == Error::PasswordHashingFail(x),
    {
        match failure.parent {
            Some(ErrorSource::PasswordHash(x)) => Error::PasswordHashingFail(x),
            _ => unreached(),
        }
    }
}

} // verus!
