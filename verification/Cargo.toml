[package]
name = "nultr_ws"
version = "0.1.0"
edition = "2021"
publish = false

[dependencies]
rust-api-kit = "=0.1.2"
url = "2"
tokio = { version = "1", features = ["sync", "net", "rt", "rt-multi-thread", "macros", "time", "io-util"] }
tokio-tungstenite = "*"
futures = "0.3"
async-stream = "0.3"
