[package]
name = "staffbot"
version = "0.1.0"
edition = "2021"
publish = false

[dependencies]
serenity = "0.11"
mongodb = "2"
tokio = { version = "1", features = ["macros", "rt-multi-thread"] }
serde = { version = "1", features = ["derive"] }
serde_yaml = "0.9"
