[package]
name = "automate"
version = "0.1.0"
edition = "2021"
publish = false

[dependencies]
anyhow = "1"
chrono = "0.4"
evalexpr = "*"
futures = "0.3"
futures-util = "0.3"
nanoid = "0.4"
reqwest = { version = "0.12", default-features = false, features = ["json"] }
sea-orm = { version = "1", default-features = false, features = ["macros", "with-json", "with-chrono"] }
serde = { version = "1", features = ["derive"] }
serde_json = "1"
tokio = { version = "1", features = ["full"] }
tokio-cron-scheduler = "*"
tokio-tungstenite = "*"
tracing = "0.1"
uuid = { version = "1", features = ["v4"] }
