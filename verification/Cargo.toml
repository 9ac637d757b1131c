[package]
name = "levelbot"
version = "0.1.0"
edition = "2021"
publish = false

[dependencies]
dotenv = "0.15"
env_logger = "0.10"
log = "0.4"
serenity = "0.11"
sqlx = { version = "0.6", default-features = false, features = ["runtime-tokio-rustls", "mysql", "migrate"] }
tokio = { version = "1", features = ["macros", "rt-multi-thread"] }
