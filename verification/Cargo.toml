[package]
name = "devimint"
version = "0.1.0"
edition = "2021"
publish = false

[dependencies]
anyhow = "1"
bitcoin = "=0.29.2"
bitcoincore-rpc = "=0.16.0"
cln-rpc = "=0.1.3"
serde_json = "=1.0.154"
tokio = { version = "1", features = ["fs", "macros", "process", "rt", "sync", "time"] }
tonic_lnd = "=0.5.1"
tracing = "0.1"
