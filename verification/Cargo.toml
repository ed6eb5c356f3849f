[package]
name = "hash_benchmark"
version = "0.1.0"
edition = "2021"
publish = false

[dependencies]
drillx = "=2.2.0"
solana-rpc-client = "2.0"
