[package]
name = "redis_browser"
version = "0.1.0"
edition = "2021"
publish = false

[dependencies]
log = "0.4"
log4rs = "1"
redis = { version = "*", features = ["tokio-comp"] }
refinery = { version = "*", features = ["rusqlite"] }
rusqlite = { version = "*", features = ["time"] }
serde = { version = "1", features = ["derive"] }
serde_json = "1"
time = { version = "0.3", features = ["serde", "formatting", "parsing"] }
tokio = { version = "1", features = ["sync", "rt", "macros", "time"] }
uuid = { version = "1", features = ["v4", "v7", "serde"] }
