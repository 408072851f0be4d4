[package]
name = "treice"
version = "0.1.0"
edition = "2021"
publish = false

[dependencies]
libc = "=0.2.191"
nix = { version = "=0.31.3", features = ["ptrace", "process", "signal"] }
syscalls = { version = "=0.8.1", features = ["x86_64"] }
