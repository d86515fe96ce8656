use vstd::prelude::*;

verus! {

/// A row of the `users` table. The identifier is the 128-bit value of the
/// row's UUID; the dates are seconds since the Unix epoch.
#[derive(Debug, Clone)]
pub struct User {
    pub id: u128,
    pub username: String,
    pub hash: String,
    pub refresh_token: Option<String>,
    pub email: String,
    pub email_verified: bool,
    pub created: i64,
    pub updated: i64,
    pub is_delete: bool,
}

/// The moment that is stored as creation and update time of new users:
/// 61 seconds after the Unix epoch.
pub const NEW_USER_TIMESTAMP: i64 = 61;

} // verus!
