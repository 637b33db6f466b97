[package]
name = "adaptive_load"
version = "0.1.0"
edition = "2021"
publish = false

[dependencies]
chrono = "0.4"
crossterm = "0.25"
futures = "0.3"
reqwest = { version = "0.11", default-features = false }
tokio = { version = "1", features = ["rt", "sync", "time"] }
tui = "0.19"
