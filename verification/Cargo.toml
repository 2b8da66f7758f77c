[package]
name = "ncaptura"
version = "0.1.0"
edition = "2021"
publish = false

[dependencies]
serde_json = "*"
nix = { version = "*", features = ["signal"] }
chrono = "*"
dirs = "*"
