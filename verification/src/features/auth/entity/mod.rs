pub mod user;

pub use user::User;
