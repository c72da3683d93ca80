[package]
name = "scrcpy_masker"
version = "0.1.0"
edition = "2021"
publish = false

[dependencies]
tokio = { version = "*", features = ["sync", "net", "time", "rt-multi-thread", "io-util", "macros"] }
tokio-util = "*"
flume = "*"
serde = { version = "*", features = ["derive"] }
serde_json = "*"
rand = "*"

[dev-dependencies]
half = "*"
