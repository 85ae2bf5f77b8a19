[package]
name = "declarative_download"
version = "0.1.0"
edition = "2021"
publish = false

[dependencies]
base64 = "0.22"
json = "0.12"
queues = "1"
futures-util = "0.3"
reqwest = { version = "0.12", default-features = false, features = ["stream"] }
tokio = { version = "1", features = ["rt-multi-thread", "sync", "time", "macros"] }
zip-extract = "0.1"
