[package]
name = "presence_engine"
version = "0.2.0"
edition = "2021"
publish = false

[dependencies]
chrono = "0.4"
discord-rich-presence = "*"
serde = { version = "1", features = ["derive"] }
serde_json = "1"
