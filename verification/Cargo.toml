[package]
name = "yuanbao_chat2api"
version = "0.1.0"
edition = "2021"
publish = false

[dependencies]
anyhow = "*"
async-channel = "*"
axum = "*"
futures = "*"
reqwest = { version = "=0.12.28", default-features = false, features = ["json", "stream"] }
reqwest-eventsource = "=0.6.0"
serde = { version = "*", features = ["derive"] }
serde_json = "=1.0.151"
serde_yaml = "*"
tokio = { version = "*", features = ["rt-multi-thread", "macros", "net", "fs"] }
tracing = "*"
tracing-subscriber = "*"
