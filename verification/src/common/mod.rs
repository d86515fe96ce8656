pub mod authorization;
pub mod configuration;
pub mod error;
pub mod error_response;
pub mod response_payload;
pub mod user_id;
