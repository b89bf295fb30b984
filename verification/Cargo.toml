[package]
name = "saturn_fund"
version = "0.1.0"
edition = "2021"
publish = false

[dependencies]
anchor-lang = "=1.2.1"
solana-program = "=2.0.25"
spl-token = { version = "=9.0.0", features = ["no-entrypoint"] }
spl-token-swap = { version = "=3.0.0", features = ["no-entrypoint"] }
serum_dex = { version = "=0.5.4", features = ["no-entrypoint"] }
tokio = { version = "=1.54.1", features = ["full"] }
tokio-stream = "=0.1.19"
futures = "=0.3.34"
warp = { version = "=0.4.3", features = ["server", "websocket"] }
