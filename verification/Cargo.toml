[package]
name = "leadsnebula_api"
version = "0.1.0"
edition = "2021"
publish = false

[dependencies]
hex = "0.4"
base64 = "0.22"
base32 = "0.5"
sha2 = "0.10"
urlencoding = "2"
url = "2"
uuid = { version = "1", features = ["v4"] }
rand = "0.8"
serde = { version = "1", features = ["derive"] }
serde_json = "1"
chrono = "0.4"
axum = "0.7"
tokio = { version = "1", features = ["full"] }
sqlx = { version = "0.7", default-features = false, features = ["postgres", "runtime-tokio", "uuid", "chrono", "json", "rust_decimal"] }
rust_decimal = "1"
jsonwebtoken = "9"
qrcode = "0.14"
tracing = "0.1"
anyhow = "1"
tokio-retry = "0.3"
