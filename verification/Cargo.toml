[package]
name = "message_signer"
version = "0.1.0"
edition = "2021"
publish = false

[dependencies]
ed25519-dalek = "2"
solana-sdk = "2"
