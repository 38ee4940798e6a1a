[package]
name = "relay_stations"
version = "0.1.0"
edition = "2021"
publish = false

[dependencies]
anyhow = "1"
async-trait = "0.1"
chrono = "0.4"
dirs = "5"
log = "0.4"
reqwest = { version = "0.12", features = ["json"] }
rusqlite = "0.32"
serde = { version = "1", features = ["derive"] }
serde_json = "1"
urlencoding = "2"
uuid = { version = "1", features = ["v4"] }
