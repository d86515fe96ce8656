pub mod middleware;
pub mod token;

pub use crate::features::auth::jwt::claims::Claims;
