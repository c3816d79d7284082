[package]
name = "watchdog"
version = "0.1.0"
edition = "2021"
publish = false

[dependencies]
chrono = "0.4"
config = "0.14"
reqwest = "0.11"
serenity = "0.12"
tokio = { version = "1", features = ["full"] }
