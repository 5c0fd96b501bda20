[package]
name = "payment_core"
version = "0.1.0"
edition = "2021"
publish = false

[dependencies]
rsa = { version = "0.9", features = ["sha2"] }
rand = "0.8"
base64 = "0.22"
aes-gcm = "0.10"
serde = { version = "1", features = ["derive"] }
serde_json = "1"
uuid = { version = "1", features = ["v4"] }
chrono = "0.4"
axum = "0.7"
tokio = { version = "1", features = ["full"] }
reqwest = { version = "0.12", default-features = false, features = ["blocking", "json", "rustls-tls"] }
sqlx = { version = "0.8", default-features = false, features = ["mysql", "runtime-tokio", "chrono", "uuid", "macros"] }
