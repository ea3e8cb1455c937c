[package]
name = "palimpsest_sim"
version = "0.1.0"
edition = "2021"
publish = false

[dependencies]
serde = { version = "1", features = ["derive"] }
serde_json = "1"
bincode = { version = "2", features = ["serde"] }
zstd = "*"
rusqlite = { version = "*", features = ["bundled"] }

[dev-dependencies]
tempfile = "3"
