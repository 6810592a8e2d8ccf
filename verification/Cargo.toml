[package]
name = "nft_staking"
version = "0.1.0"
edition = "2021"
publish = false

[dependencies]
anchor-lang = { version = "=0.26.0", features = ["init-if-needed"] }
anchor-spl = "=0.26.0"
mpl-token-metadata = "=3.2.3"
solana-program = "1"
spl-token = { version = "=3.5.0", features = ["no-entrypoint"] }
