[package]
name = "sandstone"
version = "0.1.0"
edition = "2021"
publish = false

[dependencies]
flate2 = "1"
tokio = { version = "1", features = ["full"] }
log = "0.4"
serde = { version = "1", features = ["derive"] }
serde_json = "1"
thiserror = "*"
uuid = "1"
anyhow = "1"
