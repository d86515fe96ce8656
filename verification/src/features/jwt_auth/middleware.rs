use vstd::prelude::*;

use crate::common::error::{Error, INTERNAL_SERVER_ERROR, UNAUTHORIZED};
use crate::features::auth::jwt::claims::Claims;

verus! {

/// What the request's `Authorization` header gave.
#[derive(Debug)]
pub enum TokenParseResult {
    /// A token that decoded to these claims.
    Token(Claims),
    /// No `Bearer` token.
    Missing,
    /// A token that did not decode.
    DecodeError(Error),
}

/// What the middleware does with a request.
#[derive(Debug)]
pub enum Verdict {
    /// Pass the request on, with the claims of its token.
    Forward(Claims),
    /// Answer at once with this HTTP status and an empty body.
    Reject(u16),
}

/// The outcome of the header check once the token was decoded (or failed
/// to decode).
pub fn parse_result(decoded: Result<Claims, Error>) -> (res: TokenParseResult)
    ensures
        decoded matches Ok(c) ==> res == TokenParseResult::Token(c),
        decoded matches Err(e) ==> res == TokenParseResult::DecodeError(e),
{
    match decoded {
        Ok(c) => TokenParseResult::Token(c),
        Err(e) => TokenParseResult::DecodeError(e),
    }
}

/// A request with a valid token goes on; one without a token is answered
/// 401 Unauthorized; one whose token does not decode, 500.
pub fn verdict(token: TokenParseResult) -> (res: Verdict)
    ensures
        token matches TokenParseResult::Token(c) ==> res == Verdict::Forward(c),
        token is Missing ==> res == Verdict::Reject(UNAUTHORIZED),
        token is DecodeError ==> res == Verdict::Reject(INTERNAL_SERVER_ERROR),
{
    match token {
        TokenParseResult::Token(c) => Verdict::Forward(c),
        TokenParseResult::Missing => Verdict::Reject(UNAUTHORIZED),
        TokenParseResult::DecodeError(_) => Verdict::Reject(INTERNAL_SERVER_ERROR),
    }
}

} // verus!
