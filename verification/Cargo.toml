[package]
name = "passop"
version = "0.1.0"
edition = "2021"
publish = false

[dependencies]
clap = { version = "4", features = ["derive"] }
console = "0.15"
dialoguer = { version = "0.11", features = ["fuzzy-select"] }
dirs = "5"
qrcode = "0.14"
rand = "0.8"
serde_yaml = "0.9"
