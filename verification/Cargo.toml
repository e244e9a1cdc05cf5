[package]
name = "governance_upgrade"
version = "0.1.0"
edition = "2021"
publish = false

[dependencies]
anchor-lang = "0.28.0"
solana-program = "1.16"
