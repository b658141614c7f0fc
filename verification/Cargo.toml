[package]
name = "bundle_relay"
version = "0.1.0"
edition = "2021"
publish = false

[dependencies]
ethers-core = "=2.0.14"
ethers-signers = "=2.0.14"
