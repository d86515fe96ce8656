pub mod environment;

pub use environment::Environment;
