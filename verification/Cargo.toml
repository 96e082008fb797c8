[package]
name = "interview"
version = "0.1.0"
edition = "2021"
publish = false

[dependencies]
serde = { version = "=1.0.229", features = ["derive"] }
serde_json = "=1.0.151"
async-openai = { version = "=0.42.1", features = ["chat-completion"] }
tokio = { version = "=1.53.2", features = ["rt-multi-thread", "macros"] }
uuid = { version = "=1.27.0", features = ["v4"] }
