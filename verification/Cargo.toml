[package]
name = "inventory_ledger"
version = "0.1.0"
edition = "2021"
publish = false

[dependencies]
chrono = { version = "0.4", default-features = false, features = ["clock"] }
rusqlite = { version = "*", features = ["bundled"] }
serde = { version = "1", features = ["derive"] }
