[package]
name = "rgb_mintingservice"
version = "0.1.0"
edition = "2021"
publish = false

[dependencies]
anyhow = "1"
bitcoincore-rpc = "0.17"
bitcoind = "0.32"
clap = { version = "4", features = ["derive"] }
electrsd = "0.24"
rustyline = "12"
serde_json = "1"
