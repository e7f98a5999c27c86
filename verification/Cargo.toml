[package]
name = "marginfi_health"
version = "0.1.0"
edition = "2021"
publish = false

[dependencies]
anchor-lang = "=1.2.1"
anyhow = "=1.0.104"
base64 = "=0.22.1"
bincode = "=1.3.3"
bytemuck = "=1.25.2"
enum_dispatch = "=0.3.13"
fixed = "=1.31.0"
pyth-solana-receiver-sdk = "=2.0.0"
solana-stake-interface = { version = "=2.0.2", features = ["borsh"] }
switchboard-on-demand = { version = "=0.13.0", default-features = false, features = ["solana-v3"] }
tokio = { version = "=1.54.1", features = ["macros", "rt-multi-thread"] }
tokio-stream = "=0.1.19"
