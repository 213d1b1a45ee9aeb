[package]
name = "note_store"
version = "0.1.0"
edition = "2021"
publish = false

[dependencies]
atomicwrites = "0.4"
serde = { version = "1", features = ["derive"] }
serde_json = "1"
uuid = { version = "1", features = ["v4", "serde"] }
