[package]
name = "hft_event_bus"
version = "0.1.0"
edition = "2021"
publish = false

[dependencies]
chrono = "0.4"
flume = "0.11"
tokio = { version = "1", features = ["rt", "sync", "time"] }
