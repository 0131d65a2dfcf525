[package]
name = "cargo_dl"
version = "0.1.0"
edition = "2021"
publish = false

[dependencies]
anyhow = "1"
clap = { version = "4", features = ["derive"] }
crates-index = "0.19"
flate2 = "1"
hex = "0.4"
semver = "1"
sha2 = "0.10"
tar = "0.4"
ureq = "2"
