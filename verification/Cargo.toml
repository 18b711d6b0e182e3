[package]
name = "dotaudit"
version = "0.1.0"
edition = "2021"
publish = false

[dependencies]
serde_json = "1"
shellexpand = "3"
glob = "0.3"
clap = { version = "4", features = ["derive"] }
async-std = { version = "1", features = ["attributes"] }
