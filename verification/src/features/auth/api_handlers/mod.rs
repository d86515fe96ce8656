pub mod login_handler;
pub mod refresh_token_handler;
pub mod register_handler;
