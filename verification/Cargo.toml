[package]
name = "alarm_sheets"
version = "0.1.0"
edition = "2021"
publish = false

[dependencies]
anyhow = "1"
chrono = "0.4"
dotenv = "0.15"
reqwest = { version = "0.11", features = ["json"] }
serde = { version = "1", features = ["derive"] }
serde_json = "1"
serde_sheets = "*"
tokio = { version = "1", features = ["macros", "rt-multi-thread", "time"] }
