[package]
name = "tou_http"
version = "0.1.0"
edition = "2021"
publish = false

[dependencies]
aes-gcm = "*"
hkdf = "*"
sha2 = "*"
rand = "*"
uuid = { version = "1", features = ["v4", "v7"] }
argon2 = "*"
rust_decimal = "*"
time = "*"
fred = "10"
serde = { version = "1", features = ["derive"] }
serde_json = "1"
axum = "*"
axum-extra = { version = "*", features = ["cookie"] }
tower-sessions = "*"
