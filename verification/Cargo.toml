[package]
name = "agentflow"
version = "0.1.0"
edition = "2021"
publish = false

[dependencies]
anyhow = "1"
dyn-clone = "1"
futures = "0.3"
serde_json = "1"
tokio = { version = "1", default-features = false, features = ["rt", "time"] }
