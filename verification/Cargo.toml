[package]
name = "personal_assistant"
version = "0.1.0"
edition = "2021"
publish = false

[dependencies]
chrono = "0.4"
futures = "0.3"
llm = "0.1.1"
rand = "0.8"
serde = { version = "1", features = ["derive"] }
tracing = "0.1"
tracing-appender = "0.2"
tracing-subscriber = "0.3"
