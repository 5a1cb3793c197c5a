[package]
name = "grim_bundle"
version = "0.1.0"
edition = "2021"
publish = false

[dependencies]
bs58 = "0.5"
serde = { version = "1", features = ["derive"] }
serde_json = "1"
solana-sdk = "2"
anchor-lang = "0.31"
