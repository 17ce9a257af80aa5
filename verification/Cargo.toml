[package]
name = "minicon"
version = "0.1.0"
edition = "2021"
publish = false

[dependencies]
nix = "0.26"
libc = "0.2"
serde = { version = "1", features = ["derive"] }
serde_json = "1"
clap = "4"
