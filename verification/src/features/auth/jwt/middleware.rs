use vstd::prelude::*;

use crate::common::error_response::{code_value, Code, ErrorMeta, ErrorResponse};
use crate::features::auth::errors::Error;
use crate::features::auth::jwt::claims::Claims;

verus! {

/// What the middleware in front of the protected routes does with a
/// request, given the claims of its access token or why there are none:
/// it lets the request through with the claims, or answers with an
/// "Incorrect access token" error (401, code 3) whose parent is the reason.
pub fn check_access(token: Result<Claims, Error>) -> (res: Result<Claims, ErrorResponse>)
    ensures
        token is Ok <==> res is Ok,
        res matches Ok(c) ==> token == Ok::<Claims, Error>(c),
        res matches Err(r) ==> r.meta.code == Code::AccessTokenMissing
            && code_value(r.meta.code) == 3 && r.meta.status_code == 401
            && r.meta.message@ == "Incorrect access token"@
            && token == Err::<Claims, Error>(r.parent->0) && r.parent is Some,
{
    match token {
        Ok(claims) => Ok(claims),
        Err(e) => Err(ErrorResponse { meta: ErrorMeta::access_token_missing(), parent: Some(e) }),
    }
}

} // verus!
