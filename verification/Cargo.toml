[package]
name = "metro_sign"
version = "0.1.0"
edition = "2021"
publish = false

[dependencies]
chrono = "*"
rand = "*"
retry = "*"
serde = { version = "*", features = ["derive"] }
serde_json = "*"
reqwest = { version = "*", default-features = false, features = ["json", "rustls-tls"] }
tokio = { version = "*", features = ["macros", "rt-multi-thread", "sync", "time"] }
firebase-rs = "*"
dotenv = "*"
env_logger = "*"
log = "*"
embedded-graphics = "*"
embedded-text = "*"
