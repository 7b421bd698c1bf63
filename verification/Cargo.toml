[package]
name = "evmbench"
version = "0.1.0"
edition = "2021"
publish = false

[dependencies]
perfcnt = "*"
sys-info = "*"
serde = { version = "*", features = ["derive"] }
serde_json = "*"
evm = "*"
ethereum-types = "*"
