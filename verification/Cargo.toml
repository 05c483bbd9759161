[package]
name = "alarms"
version = "0.1.0"
edition = "2021"
publish = false

[dependencies]
time = "0.3"
time-tz = { version = "2", features = ["db"] }
tokio = { version = "1", features = ["rt-multi-thread", "macros", "sync", "time", "signal", "fs"] }
sqlx = { version = "0.8", default-features = false, features = ["runtime-tokio", "sqlite"] }
reqwest = { version = "0.12", default-features = false, features = ["json"] }
tokio-tungstenite = "0.24"
futures-util = "0.3"
dotenvy = "0.15"
url = "2"
serde = { version = "1", features = ["derive"] }
serde_json = "1"
