pub mod api_handlers;
pub mod db;
pub mod entity;
pub mod errors;
pub mod jwt;
pub mod password_hash;
pub mod random_string;
