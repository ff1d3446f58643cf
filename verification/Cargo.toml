[package]
name = "disket"
version = "0.1.0"
edition = "2021"
publish = false

[dependencies]
cfg-if = "*"
nix = { version = "*", features = ["mount"] }
thiserror = "*"
