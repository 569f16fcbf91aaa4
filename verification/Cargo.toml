[package]
name = "renovatio"
version = "0.1.0"
edition = "2021"
publish = false

[dependencies]
flume = "*"
shellexpand = "*"
serde = { version = "*", features = ["derive"] }
serde_json = "*"
libloading = "*"
