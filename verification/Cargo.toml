[package]
name = "following_feed"
version = "0.1.0"
edition = "2021"
publish = false

[dependencies]
multibase = "=0.9.3"
p256 = { version = "=0.13.2", features = ["ecdsa"] }
secp256k1 = "=0.30.0"
sha2 = "=0.10.9"
hmac = "=0.12.1"
base64 = "=0.22.1"
urlencoding = "=2.1.3"
chrono = "=0.4.45"
serde = { version = "=1.0.229", features = ["derive"] }
serde_json = "=1.0.154"
anyhow = "=1.0.104"
thiserror = "=2.0.21"
tokio = { version = "=1.54.1", features = ["full"] }
axum = "=0.8.9"
reqwest = { version = "=0.12.28", features = ["json"] }
tracing = "=0.1.44"
tracing-subscriber = { version = "=0.3.23", features = ["env-filter"] }
dotenvy = "=0.15.7"
rand = "=0.8.8"
futures = "=0.3.34"
tokio-tungstenite = "=0.26.2"
tower-http = { version = "=0.6.11", features = ["cors", "trace"] }
cron = "=0.15.0"
prometheus = "=0.14.0"
hickory-resolver = "=0.24.4"
postgres = "=0.19.14"
diesel = { version = "2", features = ["postgres", "chrono"] }
deadpool-diesel = { version = "*", features = ["postgres"] }
bsky-sdk = "*"
ipld-core = "*"
