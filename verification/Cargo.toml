[package]
name = "orbis"
version = "0.1.0"
edition = "2021"
publish = false

[dependencies]
serde = { version = "1", features = ["derive"] }
serde_json = "1"
rusqlite = { version = "0.32", features = ["bundled"] }
chrono = "0.4"
sysinfo = "0.33"
tracing = "0.1"
tracing-subscriber = "0.3"
