[package]
name = "sui-subnet"
version = "0.1.0"
edition = "2021"
publish = false

[dependencies]
avalanche-types = { version = "=0.1.2", features = ["subnet"] }
bytes = "=1.12.1"
chrono = "=0.4.45"
jsonrpc-core = "=18.0.0"
jsonrpc-derive = "=18.0.0"
log = "0.4"
tokio = { version = "1", features = ["sync"] }
tonic = "0.9"
