[package]
name = "database_creator"
version = "0.1.0"
edition = "2021"
publish = false

[dependencies]
rusqlite = { version = "=0.40.2", features = ["bundled"] }
serde_json = { version = "=1.0.151", features = ["preserve_order"] }
anyhow = "=1.0.104"
