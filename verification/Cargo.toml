[package]
name = "xoauth2_token"
version = "0.1.0"
edition = "2021"
publish = false

[dependencies]
oauth2 = { version = "=4.4.2", default-features = false, features = ["ureq"] }
http = "=0.2.12"
chrono = "=0.4.45"
serde = { version = "=1.0.229", features = ["derive"] }
serde_json = "=1.0.154"
log = "=0.4.34"
env_logger = "=0.10.2"
tokio = { version = "=1.54.1", features = ["rt", "macros"] }
mail-send = "=0.4.9"
