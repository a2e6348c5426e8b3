[package]
name = "price_monitor"
version = "0.1.0"
edition = "2021"
publish = false

[dependencies]
serde_json = "1"
reqwest = "*"
tokio = { version = "1", features = ["rt-multi-thread", "time"] }
