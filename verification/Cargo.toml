[package]
name = "antigravity"
version = "0.1.0"
edition = "2021"
publish = false

[dependencies]
async-trait = "0.1"
dirs = "*"
serde_json = { version = "1", features = ["float_roundtrip"] }
tokio = { version = "1", features = ["io-util", "process", "rt", "time"] }
uuid = { version = "1", features = ["v4"] }
