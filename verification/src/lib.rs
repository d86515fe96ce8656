//! Verified core of a small authentication service: response payloads,
//! error descriptions, bearer-token handling, password hashing and the
//! decisions behind the register / login / refresh-token endpoints.
pub mod api;
pub mod common;
pub mod features;
pub mod text;
