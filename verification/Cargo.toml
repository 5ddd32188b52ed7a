[package]
name = "crostini"
version = "0.5.1"
edition = "2021"
publish = false

[dependencies]
nix = { version = "*", features = ["signal", "process"] }
libcontainer = { version = "*", default-features = false }
tracing = "0.1"
