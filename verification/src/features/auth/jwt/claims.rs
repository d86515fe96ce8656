use vstd::prelude::*;

use crate::common::user_id::{parse_uuid, uuid_hyphenated, uuid_parse};
use crate::features::auth::errors::Error;

verus! {

/// The claims of an access token: the user it was issued to (`sub`, the
/// text of the user's identifier) and when it expires (`exp`, seconds since
/// the Unix epoch).
#[derive(Debug)]
pub struct Claims {
    pub sub: String,
    pub exp: usize,
}

impl Claims {
    /// The identifier of the user that the token names, as a 128-bit value.
    pub fn uuid(&self) -> (res: Result<u128, Error>)
        ensures
            res matches Ok(id) ==> uuid_parse(self.sub@) == Some(id),
            res matches Err(e) ==> e is InvalidClaimsUuid && uuid_parse(self.sub@) is None,
            forall|id: u128| self.sub@ == #[trigger] uuid_hyphenated(id) ==> (res matches Ok(v) && v == id),
    {
        match parse_uuid(self.sub.as_str()) {
            Some(id) => Ok(id),
            None => Err(Error::InvalidClaimsUuid),
        }
    }
}

} // verus!
