[package]
name = "auth_api"
version = "0.1.0"
edition = "2021"
publish = false

[dependencies]
rust-argon2 = "1.0"
rand = "0.8"
jsonwebtoken = "9"
serde = { version = "1", features = ["derive"] }
serde_json = { version = "1", features = ["preserve_order"] }
uuid = "1"
chrono = "0.4"
sqlx = { version = "0.7", default-features = false, features = ["runtime-tokio", "postgres", "uuid", "chrono", "macros"] }
actix-web = { version = "4", default-features = false, features = ["macros"] }
dotenv = "0.15"
envy = "0.4"
env_logger = { version = "0.10", default-features = false }
log = "0.4"
futures-util = "0.3"
