[package]
name = "arkflow"
version = "0.1.0"
edition = "2021"
publish = false

[dependencies]
async-trait = "*"
flume = "*"
serde = { version = "*", features = ["derive"] }
serde_json = "*"
tokio = { version = "*", features = ["rt-multi-thread", "sync", "time", "macros"] }
tokio-util = { version = "*", features = ["rt"] }
tracing = "*"
