[package]
name = "validator_harness"
version = "0.1.0"
edition = "2021"
publish = false

[dependencies]
anyhow = "1"
log = "0.4"
solana-sdk = "1"
subprocess = "0.2"
