[package]
name = "radio_log_store"
version = "0.1.0"
edition = "2021"
publish = false

[dependencies]
rusqlite = { version = "*", features = ["bundled"] }
ratatui = "*"
crossterm = "*"
ureq = { version = "*", default-features = false }
serde = { version = "*", features = ["derive"] }
serde_json = "*"
platform-dirs = "*"
chrono = "*"
unicode-width = "*"
