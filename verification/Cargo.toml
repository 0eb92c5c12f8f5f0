[package]
name = "hermes"
version = "0.1.0"
edition = "2021"
publish = false

[dependencies]
anyhow = "1"
chrono = { version = "=0.4.45", features = ["serde"] }
directories = "=5.0.1"
egui = { version = "=0.27.2", default-features = false }
parking_lot = "=0.12.5"
rusqlite = { version = "=0.31.0", features = ["bundled"] }
serde = { version = "1", features = ["derive"] }
toml = "=0.8.23"
tracing = "0.1"
tracing-subscriber = { version = "=0.3.23", features = ["env-filter"] }

[dev-dependencies]
regex = "=1.13.1"
