[package]
name = "snapblaster"
version = "0.1.0"
edition = "2021"
publish = false

[dependencies]
wmidi = "4"
tokio = { version = "1", features = ["full"] }
serde = { version = "1", features = ["derive"] }
serde_json = "1"
midir = "0.9"
tracing = "0.1"
tracing-subscriber = "0.3"
reqwest = { version = "0.11", default-features = false, features = ["json", "rustls-tls"] }
rusty_link = "*"
