[package]
name = "forum_core"
version = "0.1.0"
edition = "2021"
publish = false

[dependencies]
argonautica = "*"
chrono = "*"
actix-web = "*"
actix-identity = "*"
actix-session = { version = "*", features = ["cookie-session"] }
tera = "*"
serde = { version = "*", features = ["derive"] }
dotenv = "*"
env_logger = "*"
log = "*"
