[package]
name = "newspoll"
version = "0.1.0"
edition = "2021"
publish = false

[dependencies]
lru = "=0.18.5"
chrono = "=0.4.45"
rand = "=0.10.3"
serde = { version = "=1.0.229", features = ["derive"] }
serde_json = "=1.0.151"
reqwest = { version = "=0.13.5", default-features = false, features = ["json", "query"] }
tokio = { version = "=1.53.2", features = ["rt-multi-thread", "macros", "net", "sync", "time"] }
futures-util = "=0.3.34"
async-tungstenite = { version = "=0.35.0", features = ["tokio-runtime"] }
