[package]
name = "greptime_common"
version = "0.1.0"
edition = "2021"
publish = false

[dependencies]
regex = "1"
serde = { version = "1", features = ["derive"] }
serde_json = "1"
serde_with = "3"
humantime-serde = "1"
yaml-rust = "0.4"
async-trait = "0.1"
