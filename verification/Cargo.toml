[package]
name = "chui"
version = "0.1.0"
edition = "2021"
publish = false

[dependencies]
primitive-types = "=0.12.2"
sha3 = "=0.10.9"
reed-solomon-erasure = "=5.0.3"
serde = { version = "=1.0.229", features = ["derive"] }
serde_json = "=1.0.154"
jsonrpc-core = "=18.0.0"
thiserror = "=1.0.69"
clap = "2.34"
