[package]
name = "clearing_house"
version = "0.1.0"
edition = "2021"
publish = false

[dependencies]
anchor-lang = "*"
solana-program = "*"
spl-token = { version = "*", features = ["no-entrypoint"] }
