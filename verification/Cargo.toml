[package]
name = "raffle_bot"
version = "0.1.0"
edition = "2021"
publish = false

[dependencies]
ascii_table = "4"
bson = "2"
chrono = "0.4"
serde = { version = "1", features = ["derive"] }
serde_json = "1"
serenity = "0.10"
tokio = { version = "1", features = ["macros", "rt-multi-thread", "time", "signal"] }
reqwest = { version = "0.11", default-features = false, features = ["json", "rustls-tls"] }
tracing = "0.1"
tracing-subscriber = "0.3"
