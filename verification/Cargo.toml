[package]
name = "valhalla_amm"
version = "0.1.0"
edition = "2021"
publish = false

[dependencies]
solana-program = "1"
spl-token = { version = "3", features = ["no-entrypoint"] }
spl-token-swap = { version = "3", features = ["no-entrypoint"] }
