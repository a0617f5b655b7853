[package]
name = "limail"
version = "0.1.0"
edition = "2021"
publish = false

[dependencies]
hex = "=0.4.3"
hmac = "=0.13.0"
sha2 = "=0.11.0"
serde_json = "=1.0.151"
serde_urlencoded = "=0.7.1"
serde = { version = "*", features = ["derive"] }
reqwest = { version = "=0.13.5", default-features = false, features = ["blocking"] }
warp = { version = "=0.4.3", features = ["multipart", "server"] }
tokio = { version = "*", features = ["macros", "rt-multi-thread"] }
dotenv = "*"
log = "*"
pretty_env_logger = "*"
futures = "*"
