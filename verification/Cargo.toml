[package]
name = "priv_access"
version = "0.1.0"
edition = "2021"
publish = false

[dependencies]
num-bigint = { version = "=0.4.8", features = ["rand"] }
rand = "=0.8.8"
sha2 = "=0.10.9"
axum = "*"
tokio = { version = "1", features = ["full"] }
serde = { version = "1", features = ["derive"] }
serde_json = "1"
tera = "1"
tower-http = { version = "*", features = ["fs"] }
once_cell = "1"
qrcode = "*"
image = "*"
base64 = "*"
chrono = "*"
futures = "*"
tokio-stream = { version = "*", features = ["sync"] }
urlencoding = "*"
