[package]
name = "sai"
version = "0.1.0"
edition = "2021"
publish = false

[dependencies]
arma-rs = "1.11"
axum = { version = "0.8", features = ["multipart"] }
dashmap = "6"
hound = "3.5"
rubato = "0.16"
serde = { version = "1", features = ["derive"] }
serde_json = "1"
tokio = { version = "1", features = ["rt-multi-thread", "sync", "time", "net", "fs", "io-util", "macros"] }
uuid = { version = "1", features = ["v4"] }
