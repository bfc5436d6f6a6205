[package]
name = "cmi"
version = "0.1.0"
edition = "2021"
publish = false

[dependencies]
chrono = "0.4"
libc = "0.2"
termios = "0.3"
nix = "*"
