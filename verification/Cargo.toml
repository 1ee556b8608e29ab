[package]
name = "worker_engine"
version = "0.1.0"
edition = "2021"
publish = false

[dependencies]
minijinja = "*"
uuid = { version = "*", features = ["v4"] }
chrono = "*"
tokio = { version = "*", features = ["rt-multi-thread", "sync", "macros", "time"] }
