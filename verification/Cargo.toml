[package]
name = "common"
version = "0.1.0"
edition = "2021"
publish = false

[dependencies]
bincode = "1"
serde = { version = "1", features = ["derive"] }
tokio = { version = "1", features = ["full"] }
tokio-tungstenite = "0.21"
futures-util = "0.3"
dashmap = "5"
chrono = "0.4"
dotenv = "0.15"
env_logger = "0.10"
log = "0.4"
mongodb = "3"
