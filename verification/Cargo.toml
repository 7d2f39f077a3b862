[package]
name = "dbgcore"
version = "0.1.0"
edition = "2021"
publish = false

[dependencies]
nix = { version = "*", features = ["ptrace", "process", "personality"] }
libc = "*"
clap = { version = "*", features = ["derive"] }
rustyline = "*"
