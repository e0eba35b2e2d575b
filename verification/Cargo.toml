[package]
name = "keys"
version = "0.1.0"
edition = "2021"
publish = false

[dependencies]
aes-gcm = "=0.10.3"
base64 = "=0.22.1"
hex = "=0.4.3"
sha256 = { version = "=1.6.0", default-features = false }
rand = "=0.9.5"
url = "=2.5.8"
serde = { version = "=1.0.229", features = ["derive"] }
serde_json = "=1.0.154"
axum = "=0.8.9"
axum-extra = { version = "=0.10.3", features = ["typed-header"] }
clap = { version = "=4.6.7", features = ["derive"] }
dotenvy = "=0.15.7"
tokio = { version = "=1.54.1", features = ["full"] }
tower-http = { version = "=0.6.11", features = ["cors"] }
sqlx = { version = "=0.8.6", default-features = false, features = ["sqlite", "runtime-tokio"] }
reqwest = { version = "=0.12.28", default-features = false, features = ["json", "rustls-tls"] }
