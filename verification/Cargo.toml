[package]
name = "vrc_logger"
version = "0.1.0"
edition = "2021"
publish = false

[dependencies]
chrono = { version = "=0.4.45", features = ["serde"] }
serde = { version = "=1.0.229", features = ["derive", "rc"] }
serde_derive = "=1.0.229"
serde_json = "=1.0.154"
thiserror = "=2.0.21"
anyhow = "=1.0.104"
log = "=0.4.35"
simple_logger = "=5.2.0"
dotenvy = "=0.15.7"
tokio = { version = "=1.54.1", features = ["full"] }
futures = "=0.3.34"
http = "=1.5.0"
url = "=2.5.8"
reqwest = { version = "=0.13.5", features = ["json", "cookies"] }
reqwest_cookie_store = "=0.10.0"
cookie_store = "=0.22.1"
vrchatapi = "=1.20.9"
serenity = "=0.12.5"
tokio-websockets = { version = "=0.13.3", features = ["client", "rustls-webpki-roots", "ring", "fastrand"] }
