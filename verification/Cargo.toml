[package]
name = "mpw"
version = "2.4.0"
edition = "2021"
publish = false

[dependencies]
argon2 = "0.5"
clap = "2"
hmac = "0.12"
nix = { version = "*", features = ["process"] }
rpassword = "*"
scrypt = "0.11"
sha2 = "0.10"
wl-clipboard-rs = "*"
