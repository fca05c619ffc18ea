[package]
name = "cmake-ls"
version = "0.1.0"
edition = "2021"
publish = false

[dependencies]
clap = { version = "4", features = ["derive"] }
command-group = "5"
ctrlc = "3"
nix = { version = "0.29", features = ["signal", "poll", "process"] }
serde = { version = "1", features = ["derive"] }
serde_json = "1"
tempfile = "3"
thiserror = "2"
