[package]
name = "ws_session"
version = "0.1.0"
edition = "2021"
publish = false

[dependencies]
async-trait = "*"
futures = "*"
tokio = { version = "*", features = ["sync", "rt", "time", "macros", "net", "io-util"] }
tokio-tungstenite = "*"
