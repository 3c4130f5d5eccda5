[package]
name = "mtga_tracker"
version = "0.1.0"
edition = "2021"
publish = false

[dependencies]
serde = { version = "=1.0.229", features = ["derive"] }
serde_json = "=1.0.154"
chrono = "=0.4.45"
onig = { version = "=6.5.3", default-features = false }
rusqlite = { version = "=0.29.0", features = ["bundled"] }
async-std = "=1.13.2"
futures = "=0.3.34"
