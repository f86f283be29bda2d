[package]
name = "lending_program"
version = "0.1.0"
edition = "2021"
publish = false

[dependencies]
anchor-lang = { version = "=1.2.2", features = ["init-if-needed"] }
anchor-spl = { version = "=1.2.2", default-features = false, features = ["token", "token_2022", "associated_token", "mint", "solana-v3"] }
pyth-solana-receiver-sdk = "=2.0.0"
rust_decimal = { version = "=1.43.0", default-features = false, features = ["std"] }
switchboard-on-demand = { version = "=0.13.0", default-features = false, features = ["solana-v3"] }
