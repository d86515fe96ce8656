pub mod claims;
pub mod middleware;
pub mod token;

pub use claims::Claims;
