[package]
name = "databento_adapter"
version = "0.1.0"
edition = "2021"
publish = false

[dependencies]
serde_json = "*"
indexmap = "*"
dbn = "*"
databento = "*"
time = "*"
tokio = { version = "*", features = ["rt", "rt-multi-thread", "sync", "time"] }
