[package]
name = "anchor_cli_wasm"
version = "0.1.0"
edition = "2021"
publish = false

[dependencies]
anchor-lang = "0.28"
anchor-syn = { version = "0.28", features = ["idl"] }
anyhow = "1"
serde_json = "1"
solana-client-wasm = "*"
solana-sdk = "1.16"
