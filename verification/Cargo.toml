[package]
name = "nftnl"
version = "0.1.0"
edition = "2021"
publish = false

[dependencies]
bitflags = "2"
libc = "0.2"
nix = { version = "*", default-features = false, features = ["feature"] }
