[package]
name = "discord_gateway"
version = "0.1.0"
edition = "2021"
publish = false

[dependencies]
serde_json = "=1.0.151"
chrono = "=0.4.45"
reqwest = { version = "=0.11.27", default-features = false }
websockets = "=0.3.0"
tokio = { version = "=1.53.2", features = ["rt", "macros", "time"] }
