use vstd::prelude::*;

use crate::text::{append_str, decimal};

verus! {

/// The numeric error codes that the service reports in its payloads.
#[derive(Debug, Clone, Copy, PartialEq, Eq, Structural)]
pub enum Code {
    UserExist,
    UserNotFound,
    AccessTokenMissing,
    Internal,
}

/// The number that stands for `code` in a payload.
pub open spec fn code_value(code: Code) -> u64 {
    match code {
        Code::UserExist => 1,
        Code::UserNotFound => 2,
        Code::AccessTokenMissing => 3,
        Code::Internal => 500,
    }
}

impl Code {
    /// The decimal text of the number that stands for this code.
    pub fn text(self) -> (res: String)
        ensures
            res@ == decimal(code_value(self) as nat),
    {
        proof {
            reveal_strlit("1");
            reveal_strlit("2");
            reveal_strlit("3");
            reveal_strlit("500");
            assert(decimal(5) =~= seq!['5']);
            assert(decimal(50) =~= seq!['5', '0']);
            assert(decimal(500) =~= seq!['5', '0', '0']);
        }
        match self {
            Code::UserExist => String::from_str("1"),
            Code::UserNotFound => String::from_str("2"),
            Code::AccessTokenMissing => String::from_str("3"),
            Code::Internal => String::from_str("500"),
        }
    }

    /// The number that stands for this code in a payload.
    pub fn raw_value(self) -> (res: u64)
        ensures
            res == code_value(self),
    {
        match self {
            Code::UserExist => 1,
            Code::UserNotFound => 2,
            Code::AccessTokenMissing => 3,
            Code::Internal => 500,
        }
    }
}

} // verus!

use crate::common::error::{CONFLICT, FORBIDDEN, INTERNAL_SERVER_ERROR, UNAUTHORIZED};
use crate::common::response_payload::{ResponseEmptyData, ResponsePayload};
use crate::features::auth::errors::{debug_text_of, Error};

verus! {

/// How an error of an endpoint is reported: its code in the payload, its
/// HTTP status and its message.
#[derive(Debug)]
pub struct ErrorMeta {
    pub code: Code,
    pub status_code: u16,
    pub message: String,
}

impl ErrorMeta {
    /// A user with the same login or email exists: code 1, 409.
    pub fn user_exist() -> (res: ErrorMeta)
        ensures
            res.code == Code::UserExist,
            res.status_code == CONFLICT,
            res.message@ == "User with same login or email alredy exist"@,
    {
        ErrorMeta {
            code: Code::UserExist,
            status_code: CONFLICT,
            message: String::from_str("User with same login or email alredy exist"),
        }
    }

    /// The credentials do not match a user: code 2, 403.
    pub fn user_not_found() -> (res: ErrorMeta)
        ensures
            res.code == Code::UserNotFound,
            res.status_code == FORBIDDEN,
            res.message@ == "Bad credentials"@,
    {
        ErrorMeta {
            code: Code::UserNotFound,
            status_code: FORBIDDEN,
            message: String::from_str("Bad credentials"),
        }
    }

    /// The request carries no usable access token: code 3, 401.
    pub fn access_token_missing() -> (res: ErrorMeta)
        ensures
            res.code == Code::AccessTokenMissing,
            res.status_code == UNAUTHORIZED,
            res.message@ == "Incorrect access token"@,
    {
        ErrorMeta {
            code: Code::AccessTokenMissing,
            status_code: UNAUTHORIZED,
            message: String::from_str("Incorrect access token"),
        }
    }

    /// Any other failure: code 500, 500.
    pub fn internal() -> (res: ErrorMeta)
        ensures
            res.code == Code::Internal,
            res.status_code == INTERNAL_SERVER_ERROR,
            res.message@ == "Internal server error"@,
    {
        ErrorMeta {
            code: Code::Internal,
            status_code: INTERNAL_SERVER_ERROR,
            message: String::from_str("Internal server error"),
        }
    }
}

/// The error answer of an endpoint: how it is reported, and the failure
/// behind it.
#[derive(Debug)]
pub struct ErrorResponse {
    pub meta: ErrorMeta,
    pub parent: Option<Error>,
}

impl From<ErrorMeta> for ErrorResponse {
    fn from(meta: ErrorMeta) -> (res: ErrorResponse) {
        ErrorResponse { meta, parent: None }
    }
}

impl vstd::std_specs::convert::FromSpecImpl<ErrorMeta> for ErrorResponse {
    open spec fn obeys_from_spec() -> bool {
        true
    }

    open spec fn from_spec(meta: ErrorMeta) -> ErrorResponse {
        ErrorResponse { meta, parent: None }
    }
}

impl ErrorResponse {
    /// The text of this error: `code: <number>, message: <message>,
    /// parent: <cause>`, where the cause is `None` or `Some(..)` around the
    /// `Debug` text of the failure behind the answer.
    pub fn text(&self) -> (res: String)
        ensures
            self.parent is None ==> res@ == "code: "@ + decimal(code_value(self.meta.code) as nat)
                + ", message: "@ + self.meta.message@ + ", parent: None"@,
            self.parent matches Some(e) ==> exists|cause: Seq<char>|
                #![trigger debug_text_of(e, cause)]
                debug_text_of(e, cause) && res@ == "code: "@ + decimal(
                    code_value(self.meta.code) as nat,
                ) + ", message: "@ + self.meta.message@ + ", parent: Some("@ + cause + ")"@,
    {
        let mut res = String::from_str("code: ");
        let code = self.meta.code.text();
        append_str(&mut res, code.as_str());
        append_str(&mut res, ", message: ");
        append_str(&mut res, self.meta.message.as_str());
        match &self.parent {
            None => {
                append_str(&mut res, ", parent: None");
            },
            Some(e) => {
                let cause = e.debug_text();
                append_str(&mut res, ", parent: Some(");
                append_str(&mut res, cause.as_str());
                append_str(&mut res, ")");
                assert(debug_text_of(*e, cause@));
            },
        }
        res
    }

    /// The HTTP status of the answer.
    pub fn status_code(&self) -> (res: u16)
        ensures
            res == self.meta.status_code,
    {
        self.meta.status_code
    }

    /// The payload of the answer: the number of its code and its message.
    pub fn error_response(&self) -> (res: ResponsePayload<ResponseEmptyData>)
        ensures
            res.error == code_value(self.meta.code),
            res.message@ == self.meta.message@,
    {
        ResponsePayload::error(self.meta.code.raw_value(), self.meta.message.clone())
    }
}

} // verus!

verus! {

/// Law: distinct codes are reported as distinct numbers.
pub proof fn lemma_code_values_distinct(a: Code, b: Code)
    requires
        a != b,
    ensures
        code_value(a) != code_value(b),
{
}

/// Law: no error code is 0, the number that marks success in a payload.
pub proof fn lemma_code_values_nonzero(c: Code)
    ensures
        code_value(c) != 0,
{
}

} // verus!
