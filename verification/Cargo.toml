[package]
name = "knishio_client"
version = "0.1.0"
edition = "2021"
publish = false

[dependencies]
zeroize = "=1.9.1"
pbkdf2 = "=0.12.2"
sha2 = "=0.10.9"
chrono = "=0.4.45"
serde = { version = "=1.0.229", features = ["derive"] }
serde_json = "=1.0.154"
base64 = "=0.22.1"
hex = "=0.4.3"
rand = "=0.9.5"
uuid = { version = "=1.29.0", features = ["v4"] }
aes-gcm = "0.10"
thiserror = "2"
async-trait = "0.1"
futures = "0.3"
