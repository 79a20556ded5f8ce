[package]
name = "ensure_installed"
version = "0.1.0"
edition = "2021"
publish = false

[dependencies]
toml = "*"
semver = "1"
getopts = "*"
