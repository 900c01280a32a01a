[package]
name = "apibara_dna"
version = "0.1.0"
edition = "2021"
publish = false

[dependencies]
bytes = "1"
error-stack = "0.5"
futures = "0.3"
google-cloud-gax = "*"
google-cloud-storage = "*"
rkyv = { version = "0.8", features = ["unaligned"] }
serde = { version = "1", features = ["derive"] }
serde_json = "1"
starknet-rust = "*"
time = { version = "0.3", features = ["local-offset"] }
tokio = { version = "1", features = ["full"] }
tokio-stream = { version = "0.1", features = ["time"] }
tokio-tungstenite = "*"
