use vstd::prelude::*;

use jsonwebtoken::errors::Error as JwtError;

use crate::common::authorization::{bearer_token, bearer_token_of};
use crate::common::error::{
    access_token_missing_error, internal_caused_by, Error, ErrorMeta, ErrorSource,
};
use crate::features::auth::jwt::claims::Claims;
use crate::features::auth::jwt::token::{
    expiring_claims, expiry, jwt_encode, jwt_hs256, utc_now_timestamp, MAX_CLOCK_SECONDS,
    MAX_TOKEN_MINUTES,
};

verus! {

/// The access token for `user_id`, signed with `secret`, valid for
/// `minutes` from now; a failure of `jsonwebtoken` would be an internal
/// error caused by it.
pub fn encode(user_id: String, secret: &str, minutes: i64) -> (res: Result<String, Error>)
    requires
        -MAX_TOKEN_MINUTES <= minutes <= MAX_TOKEN_MINUTES,
    ensures
        res is Ok,
        exists|now: int| 0 <= now <= MAX_CLOCK_SECONDS && res->Ok_0@ == #[trigger] jwt_hs256(
            user_id@,
            expiry(now, minutes as int),
            secret@,
        ),
{
    let now = utc_now_timestamp();
    let claims = expiring_claims(user_id, now, minutes);
    match jwt_encode(claims.sub.as_str(), claims.exp, secret) {
        Ok(token) => Ok(token),
        Err(e) => Err(Error::from_parent(ErrorSource::Token(e))),
    }
}

/// The claims of a decoded token, or an internal error caused by what
/// `jsonwebtoken::decode` reported. The call itself, which deserializes
/// into the claims, stands with the server.
pub fn decode(decoded: Result<Claims, JwtError>) -> (res: Result<Claims, Error>)
    ensures
        decoded is Ok <==> res is Ok,
        res matches Ok(c) ==> decoded == Ok::<Claims, JwtError>(c),
        res matches Err(e) ==> internal_caused_by(e, ErrorSource::Token(decoded->Err_0)),
{
    match decoded {
        Ok(c) => Ok(c),
        Err(e) => Err(Error::from_parent(ErrorSource::Token(e))),
    }
}

/// The token of the `Authorization` header, or the "Incorrect access
/// token" error (401, code 3) where the header is not `Bearer`, one space
/// and a token.
pub fn extract_from_headers(authorization: Option<&str>) -> (res: Result<&str, Error>)
    ensures
        res matches Ok(t) ==> authorization matches Some(h) && bearer_token_of(h@) == Some(t@),
        res is Err ==> (authorization matches Some(h) ==> bearer_token_of(h@) is None),
        res matches Err(e) ==> access_token_missing_error(e),
{
    match authorization {
        Some(header) => match bearer_token(header) {
            Some(token) => Ok(token),
            None => Err(Error::from(ErrorMeta::access_token_missing())),
        },
        None => Err(Error::from(ErrorMeta::access_token_missing())),
    }
}

} // verus!
