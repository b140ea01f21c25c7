[package]
name = "tourn_bot_core"
version = "0.1.0"
edition = "2021"
publish = false

[dependencies]
dashmap = "=5.5.3"
serde = { version = "=1.0.229", features = ["derive"] }
serenity = "=0.11.7"
tokio = { version = "1", features = ["macros", "rt-multi-thread"] }
