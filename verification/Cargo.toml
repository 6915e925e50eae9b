[package]
name = "proof_submission"
version = "0.1.0"
edition = "2021"
publish = false

[dependencies]
hex = "=0.4.3"
ethers = { version = "=2.0.14", default-features = false }
dialoguer = "0.11"
rpassword = "7"
log = "0.4"
anyhow = "1"
