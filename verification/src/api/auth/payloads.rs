use vstd::prelude::*;

verus! {

/// The body of a registration request.
#[derive(Debug)]
pub struct RegisterPayload {
    pub login: String,
    pub password: String,
    pub email: String,
}

} // verus!
