[package]
name = "airo_dx"
version = "0.1.0"
edition = "2021"
publish = false

[dependencies]
array-bytes = "6.2"
hex = "0.4"
futures = "0.3"
async-channel = "1.9"
serde = { version = "1", features = ["derive"] }
libp2p = { version = "0.54", features = ["tokio", "tcp", "noise", "yamux", "kad", "request-response", "cbor", "macros"] }
jsonrpsee = { version = "0.24", features = ["server", "client-core", "macros"] }
