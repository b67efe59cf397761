[package]
name = "tensorrt_rs"
version = "0.1.0"
edition = "2021"
publish = false

[dependencies]
candle-core = "0.9"
smallvec = "1"
half = "2"
serde = { version = "1", features = ["derive"] }
serde_json = "1"
