[package]
name = "egghead"
version = "0.1.0"
edition = "2021"
publish = false

[dependencies]
serde_json = "1"
rand = "0.8"
uuid = { version = "1", features = ["v4"] }
base64 = "0.13"
rust-fuzzy-search = "0.1"
serde = { version = "1", features = ["derive"] }
reqwest = { version = "0.11", default-features = false, features = ["blocking", "json"] }
tokio = { version = "1", features = ["rt-multi-thread", "macros", "time"] }
rusqlite = { version = "0.31", features = ["bundled"] }
chrono = "0.4"
warp = "0.3"
