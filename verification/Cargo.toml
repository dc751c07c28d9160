[package]
name = "rooster"
version = "0.1.0"
edition = "2021"
publish = false

[dependencies]
solana-program = "=1.16.25"
mpl-token-metadata = { version = "=1.13.2", features = ["no-entrypoint"] }
mpl-utils = "=0.3.6"
borsh = "=0.9.3"
spl-memo = { version = "=4.0.0", features = ["no-entrypoint"] }
spl-token = { version = "=4.0.0", features = ["no-entrypoint"] }
