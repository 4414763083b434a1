[package]
name = "vector-db-proxy"
version = "0.1.0"
edition = "2021"
publish = false

[dependencies]
tokio = { version = "=1.54.1", features = ["rt", "rt-multi-thread", "sync", "time"] }
mongodb = "=2.8.2"
qdrant-client = "=1.9.0"
