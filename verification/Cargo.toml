[package]
name = "headless-talk"
version = "0.1.0"
edition = "2021"
publish = false

[dependencies]
anyhow = "*"
arrayvec = { version = "*", features = ["serde"] }
bincode = "1"
futures = "*"
nohash-hasher = "*"
r2d2 = "*"
r2d2_sqlite = "*"
rusqlite = "*"
rusqlite_migration = "*"
serde = { version = "*", features = ["derive"] }
serde_with = "*"
thiserror = "*"
tokio = { version = "*", features = ["rt", "sync"] }
