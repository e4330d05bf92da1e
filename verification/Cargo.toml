[package]
name = "anki_sync"
version = "0.1.0"
edition = "2021"
publish = false

[dependencies]
itertools = "0.9"
rusqlite = "0.23"
serde = { version = "1", features = ["derive"] }
serde_json = "1"
serde_tuple = "0.5"
tempfile = "3"
