[package]
name = "asoul_weekly"
version = "0.1.0"
edition = "2021"
publish = false

[dependencies]
serde_json = "1"
chrono = "0.4"
reqwest = { version = "0.11", default-features = false }
tokio = { version = "1", features = ["macros", "rt-multi-thread"] }
