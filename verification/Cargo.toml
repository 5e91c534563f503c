[package]
name = "colabrodo"
version = "0.1.0"
edition = "2021"
publish = false

[dependencies]
indexmap = "=2.14.2"
uuid = { version = "=1.29.0", features = ["v4"] }
url = "=2.5.8"
ciborium = "=0.2.2"
serde = { version = "=1.0.229", features = ["derive"] }
tokio = { version = "=1.54.1", features = ["full"] }
tokio-tungstenite = "=0.20.1"
futures-util = { version = "=0.3.34", features = ["sink"] }
futures-channel = { version = "0.3", features = ["sink"] }
log = "=0.4.35"
bytemuck = { version = "=1.25.2", features = ["derive"] }
clap = { version = "4", features = ["derive"] }
env_logger = "*"
requestty = "*"
serde_json = "1"
anyhow = "1"
chrono = "0.4"
