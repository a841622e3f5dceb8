[package]
name = "propfirm"
version = "0.1.0"
edition = "2021"
publish = false

[dependencies]
uuid = { version = "=1.29.0", features = ["v4"] }
sha2 = "=0.10.9"
subtle = "=2.6.1"
rust_decimal = { version = "=1.43.0", features = ["maths"] }
chrono = "=0.4.45"
chrono-tz = "*"
serde = { version = "=1.0.229", features = ["derive"] }
serde_json = "=1.0.154"
thiserror = "=1.0.69"
anyhow = "=1.0.104"
