[package]
name = "dice_settlement"
version = "0.1.0"
edition = "2021"
publish = false

[dependencies]
solana-program = "=2.3.0"

[dev-dependencies]
solana-ed25519-program = "2"
