[package]
name = "cpmm-lp-lock"
version = "0.1.0"
edition = "2021"
publish = false

[dependencies]
anchor-lang = { version = "=0.29.0", features = ["init-if-needed"] }
anchor-spl = { version = "=0.29.0", features = ["memo"] }
solana-sdk = "=1.18.26"
solana-security-txt = "=1.1.3"
spl-token = { version = "=4.0.3", features = ["no-entrypoint"] }
spl-token-2022 = { version = "=0.9.0", features = ["no-entrypoint"] }
spl-associated-token-account = { version = "=2.3.0", features = ["no-entrypoint"] }
spl-memo = { version = "=4.0.4", features = ["no-entrypoint"] }
clap = { version = "=4.6.7", features = ["derive"] }
configparser = "=3.3.0"
anyhow = "=1.0.104"
