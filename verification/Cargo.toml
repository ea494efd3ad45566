[package]
name = "hot_ingest"
version = "0.1.0"
edition = "2021"
publish = false

[dependencies]
anyhow = "1"
async-nats = "*"
clap = { version = "4", features = ["derive"] }
futures-util = "0.3"
rmp-serde = "1"
serde_json = "1"
tokio = { version = "1", features = ["fs", "io-util", "macros", "rt-multi-thread"] }
tokio-tungstenite = "*"
url = "2"
