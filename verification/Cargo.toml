[package]
name = "ore_miner_delegation"
version = "0.1.0"
edition = "2021"
publish = false

[dependencies]
solana-program = "=2.1.16"
spl-associated-token-account = "=6.0.0"
spl-token = "=6.0.0"
ore-api = "=3.6.0"
ore-boost-api = "=4.0.0"
steel = "=4.0.9"
drillx = "=2.2.0"
