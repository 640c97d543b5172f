[package]
name = "signal-sema-storage"
version = "0.1.0"
edition = "2021"
publish = false

[dependencies]
rkyv = "0.8"
blake3 = { version = "1", features = ["pure"] }
thiserror = "2"
