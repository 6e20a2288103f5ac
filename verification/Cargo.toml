[package]
name = "connection_keeper"
version = "0.1.0"
edition = "2021"
publish = false

[dependencies]
futures = "0.3"
tokio = { version = "1", features = ["macros", "rt", "rt-multi-thread", "sync", "time"] }
