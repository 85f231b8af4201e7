[package]
name = "token_escrow"
version = "0.1.0"
edition = "2021"
publish = false

[dependencies]
borsh = { version = "1", features = ["derive"] }
solana-program = "2"
spl-associated-token-account = { version = "7", features = ["no-entrypoint"] }
spl-token = { version = "8", features = ["no-entrypoint"] }
