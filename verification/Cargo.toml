[package]
name = "aio_poll"
version = "0.1.0"
edition = "2021"
publish = false

[dependencies]
libc = "0.2"
nix = "0.9"

[dev-dependencies]
tempfile = "3"
