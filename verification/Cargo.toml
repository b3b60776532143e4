[package]
name = "cosmac"
version = "0.1.0"
edition = "2021"
publish = false

[dependencies]
rand = "*"
flume = "*"
serde = { version = "*", features = ["derive"] }
csv = "*"
anyhow = "*"
clap = { version = "*", features = ["derive"] }
