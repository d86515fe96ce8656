use vstd::prelude::*;

use jsonwebtoken::errors::Error as JwtError;

use crate::common::authorization::{bearer_token, bearer_token_of};
use crate::features::auth::errors::Error;
use crate::features::auth::jwt::claims::Claims;

verus! {

/// The largest number of minutes that `chrono::Duration::minutes` accepts
/// (`i64::MAX / 1000` seconds).
pub const MAX_TOKEN_MINUTES: i64 = 153_722_867_280_912;

/// The largest Unix timestamp that `chrono` represents lies below this
/// bound (its dates end with the year 262142).
pub const MAX_CLOCK_SECONDS: i64 = 8_300_000_000_000;

/// The expiry timestamp of a token issued at `now` that lives `minutes`.
pub open spec fn expiry(now: int, minutes: int) -> usize {
    (now + 60 * minutes) as i64 as usize
}

/// The text of the token that `jsonwebtoken::encode` makes of the claims
/// `{"sub": sub, "exp": exp}` (in that order) with the default header
/// (HS256) and the bytes of `secret` as HMAC key.
pub uninterp spec fn jwt_hs256(sub: Seq<char>, exp: usize, secret: Seq<char>) -> Seq<char>;

/// `chrono::Utc::now().timestamp()`: the current time in seconds since the
/// Unix epoch. Which time it is is not stated; `Utc::now` panics before the
/// epoch and builds a `DateTime`, whose years end with 262142.
#[verifier::external_body]
pub(crate) fn utc_now_timestamp() -> (now: i64)
    ensures
        0 <= now <= MAX_CLOCK_SECONDS,
{
    chrono::Utc::now().timestamp()
}

/// `jsonwebtoken::encode` with the default header (HS256), the claims
/// `{"sub": sub, "exp": exp}` and `EncodingKey::from_secret` of the bytes of
/// `secret`. Its result is named `jwt_hs256`; the source shows that it never
/// fails for an HMAC key with an HMAC algorithm (the header and the claims
/// serialize without error and HMAC signing cannot fail).
#[verifier::external_body]
pub(crate) fn jwt_encode(sub: &str, exp: usize, secret: &str) -> (res: Result<String, JwtError>)
    ensures
        res is Ok && res->Ok_0@ == jwt_hs256(sub@, exp, secret@),
{
    let mut claims = serde_json::Map::new();
    claims.insert(String::from("sub"), serde_json::Value::from(sub));
    claims.insert(String::from("exp"), serde_json::Value::from(exp));
    let key = jsonwebtoken::EncodingKey::from_secret(secret.as_bytes());
    jsonwebtoken::encode(&jsonwebtoken::Header::default(), &claims, &key)
}

/// The claims of a token for `user_id` issued at `now` that lives
/// `minutes`: it expires at `now + 60 * minutes`.
pub fn expiring_claims(user_id: String, now: i64, minutes: i64) -> (res: Claims)
    requires
        0 <= now <= MAX_CLOCK_SECONDS,
        -MAX_TOKEN_MINUTES <= minutes <= MAX_TOKEN_MINUTES,
    ensures
        res.sub@ == user_id@,
        res.exp == expiry(now as int, minutes as int),
{
    let seconds: i64 = now + minutes * 60;
    Claims { sub: user_id, exp: seconds as usize }
}

/// The access token for `user_id`, signed with `secret`, issued at `now`
/// and valid for `minutes`.
pub fn encode_at(user_id: String, secret: &str, minutes: i64, now: i64) -> (res: Result<String, Error>)
    requires
        0 <= now <= MAX_CLOCK_SECONDS,
        -MAX_TOKEN_MINUTES <= minutes <= MAX_TOKEN_MINUTES,
    ensures
        res matches Ok(t) && t@ == jwt_hs256(user_id@, expiry(now as int, minutes as int), secret@),
{
    let claims = expiring_claims(user_id, now, minutes);
    match jwt_encode(claims.sub.as_str(), claims.exp, secret) {
        Ok(token) => Ok(token),
        Err(e) => Err(Error::InvalidTokenData(e)),
    }
}

/// The access token for `user_id`, signed with `secret`, valid for
/// `minutes` from now. (For a sum beyond the year 262142, where `chrono`
/// would panic, the expiry is the plain sum.)
pub fn encode(user_id: String, secret: &str, minutes: i64) -> (res: Result<String, Error>)
    requires
        -MAX_TOKEN_MINUTES <= minutes <= MAX_TOKEN_MINUTES,
    ensures
        res is Ok,
        exists|now: int| 0 <= now <= MAX_CLOCK_SECONDS && res->Ok_0@ == #[trigger] jwt_hs256(
            user_id@,
            expiry(now, minutes as int),
            secret@,
        ),
{
    let now = utc_now_timestamp();
    encode_at(user_id, secret, minutes, now)
}

/// The claims of a decoded token, or `InvalidToken` with the reason that
/// `jsonwebtoken::decode` gave (a bad signature, an expired or malformed
/// token). The call itself, which deserializes into the claims, stands
/// with the server.
pub fn decode(decoded: Result<Claims, JwtError>) -> (res: Result<Claims, Error>)
    ensures
        decoded is Ok <==> res is Ok,
        res matches Ok(c) ==> decoded == Ok::<Claims, JwtError>(c),
        res matches Err(e) ==> e == Error::InvalidToken(decoded->Err_0),
{
    match decoded {
        Ok(c) => Ok(c),
        Err(e) => Err(Error::InvalidToken(e)),
    }
}

/// The token of the `Authorization` header (`None` where the request has
/// none, or it is not text): the header must be `Bearer`, one space and
/// the token; otherwise `MissingToken`.
pub fn extract_from_headers(authorization: Option<&str>) -> (res: Result<&str, Error>)
    ensures
        res matches Ok(t) ==> authorization matches Some(h) && bearer_token_of(h@) == Some(t@),
        res is Err ==> (res->Err_0 is MissingToken) && (authorization matches Some(h)
            ==> bearer_token_of(h@) is None),
{
    match authorization {
        Some(header) => match bearer_token(header) {
            Some(token) => Ok(token),
            None => Err(Error::MissingToken),
        },
        None => Err(Error::MissingToken),
    }
}

} // verus!
