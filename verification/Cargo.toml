[package]
name = "transfer_router"
version = "0.1.0"
edition = "2021"
publish = false

[dependencies]
anchor-lang = "0.30"
anchor-spl = "0.30"
mpl-token-metadata = "4"
solana-program = "1"
spl-token-2022 = "3"

[dev-dependencies]
borsh = "0.10"
