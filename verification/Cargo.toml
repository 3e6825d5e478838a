[package]
name = "pbs_stage"
version = "0.1.0"
edition = "2021"
publish = false

[dependencies]
bincode = "=1.3.3"
crossbeam-channel = "=0.5.17"
futures = "=0.3.34"
log = "=0.4.35"
prost-types = "=0.11.9"
solana-metrics = "=1.18.26"
solana-perf = "=1.18.26"
solana-sdk = "=1.18.26"
tokio = { version = "=1.54.1", features = ["full"] }
tokio-stream = "=0.1.19"
tokio-util = { version = "=0.6.10", features = ["time"] }
tonic = { version = "=0.9.2", features = ["tls"] }
