pub mod auth;
pub mod jwt_auth;
