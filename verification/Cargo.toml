[package]
name = "mission_bot"
version = "0.1.0"
edition = "2021"
publish = false

[dependencies]
serde = { version = "*", features = ["derive"] }
serde_json = "*"
tokio = { version = "*", features = ["rt-multi-thread", "macros", "time", "sync"] }
frankenstein = { version = "*", features = ["client-reqwest"] }
reqwest = { version = "*", default-features = false }
dotenv = "*"
chrono = "*"
