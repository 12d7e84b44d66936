[package]
name = "datimer"
version = "0.1.0"
edition = "2021"
publish = false

[dependencies]
chrono = "0.4"
crossterm = "0.27"
tokio = { version = "1", features = ["macros", "rt-multi-thread", "sync", "time"] }
