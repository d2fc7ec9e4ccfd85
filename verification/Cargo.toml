[package]
name = "nostd_invoke"
version = "0.1.0"
edition = "2021"
publish = false

[dependencies]
solana-nostd-entrypoint = "=0.6.2"
solana-program = "=1.18.26"
