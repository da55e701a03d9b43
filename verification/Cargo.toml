[package]
name = "llm_gateway"
version = "0.1.0"
edition = "2021"
publish = false

[dependencies]
async-channel = "2"
tokio = { version = "1", features = ["full"] }
chrono = "0.4"
rand = "0.8"
num_cpus = "1"
axum = { version = "0.7", features = ["ws"] }
serde = { version = "1", features = ["derive"] }
serde_json = "1"
serde_repr = "0.1"
utoipa = "4"
clap = { version = "4", features = ["derive", "env"] }
dotenvy = "0.15"
tracing = "0.1"
tracing-subscriber = { version = "0.3", features = ["env-filter", "json"] }
dashmap = "5"
futures = "0.3"
streamunordered = "0.5"
async-stream = "0.3"
reqwest = { version = "0.12", default-features = false, features = ["json", "stream"] }
reqwest-eventsource = "0.6"
tokio-tungstenite = "0.21"
thiserror = "1"
tower-http = { version = "0.5", features = ["cors"] }
metrics = "0.23"
