[package]
name = "miner_activation"
version = "0.1.0"
edition = "2021"
publish = false

[dependencies]
solana-sdk = "=1.18.26"
dioxus = "=0.4.3"
log = "=0.4.34"
