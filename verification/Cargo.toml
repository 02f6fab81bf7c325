[package]
name = "interop"
version = "0.1.0"
edition = "2021"
publish = false

[dependencies]
tokio = { version = "1", features = ["rt-multi-thread", "net", "time", "io-util"] }
reqwest = { version = "0.12", default-features = false }
hickory-resolver = "0.24"
