[package]
name = "prollyglot_runtime"
version = "0.1.0"
edition = "2021"
publish = false

[dependencies]
sha2 = "0.10"
serde = { version = "1", features = ["derive"] }
serde_json = "1"
thiserror = "2"
crossbeam-channel = "0.5"
parking_lot = "0.12"
tracing = "0.1"
ts-rs = "10"
