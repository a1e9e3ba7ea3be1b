[package]
name = "mafia_engine"
version = "0.1.0"
edition = "2021"
publish = false

[dependencies]
rand = "=0.9.5"
serde = { version = "=1.0.229", features = ["derive"] }
serde_json = "=1.0.154"
async-openai = { version = "=0.42.2", features = ["chat-completion", "byot"] }
schemars = "=1.2.3"
tokio = { version = "=1.54.1", features = ["rt-multi-thread", "sync", "time"] }
