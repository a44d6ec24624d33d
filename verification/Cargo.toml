[package]
name = "furtherance"
version = "0.1.0"
edition = "2021"
publish = false

[dependencies]
chrono = "=0.4.45"
rusqlite = { version = "=0.41.1", features = ["bundled", "chrono", "backup"] }
