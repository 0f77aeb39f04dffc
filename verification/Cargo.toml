[package]
name = "zigstack"
version = "0.1.0"
edition = "2021"
publish = false

[dependencies]
anyhow = "*"
chrono = "*"
fern = "*"
humantime = "*"
log = "*"
tokio = { version = "*", features = ["io-util"] }
tokio-serial = "*"
