[package]
name = "serdo"
version = "0.1.0"
edition = "2021"
publish = false

[dependencies]
bincode = "1.3"
error-stack = "0.4"
rusqlite = { version = "0.31", features = ["bundled"] }
serde = { version = "1", features = ["derive"] }
serde_json = "1"
tracing = "0.1"

[dev-dependencies]
tempfile = "3"
