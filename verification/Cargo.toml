[package]
name = "nix_fhs"
version = "0.1.0"
edition = "2021"
publish = false

[dependencies]
clap = { version = "4", features = ["derive"] }
dirs = "6"
serde_json = "1"
