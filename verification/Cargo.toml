[package]
name = "dollhouse"
version = "0.1.0"
edition = "2021"
publish = false

[dependencies]
chacha20poly1305 = "0.10"
base64ct = { version = "1", features = ["alloc"] }
blake3 = { version = "1", features = ["rayon"] }
dashmap = "6"
tokio = { version = "1", features = ["rt", "rt-multi-thread", "macros", "time"] }
aws-config = "1"
aws-sdk-s3 = "1"
anyhow = "1"
faccess = "0.2"
