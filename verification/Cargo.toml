[package]
name = "telemetry_bridge"
version = "0.1.0"
edition = "2021"

[dependencies]
chrono = "*"
serde = { version = "*", features = ["derive"] }
serde_json = "*"
tokio = { version = "*", features = ["rt-multi-thread", "net", "io-util", "macros", "time"] }
reqwest = { version = "*", default-features = false }
