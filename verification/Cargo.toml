[package]
name = "atlas_txn_sender"
version = "0.1.0"
edition = "2021"
publish = false

[dependencies]
base64 = "=0.22.1"
bincode = "=1.3.3"
cadence = "=1.8.0"
cadence-macros = "=1.8.0"
jsonrpsee = { version = "=0.24.11", default-features = false, features = ["server-core", "macros"] }
solana-rpc-client-api = "=2.0.25"
solana-sdk = { version = "=2.0.25", default-features = false, features = ["full"] }
solana-transaction-status = "=2.0.25"
tonic = { version = "=0.12.3", default-features = false, features = ["codegen"] }
tracing = "=0.1.44"
