pub mod handlers;
pub mod payloads;
