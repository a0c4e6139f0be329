[package]
name = "mailscope"
version = "0.1.0"
edition = "2021"
publish = false

[dependencies]
serde = { version = "1", features = ["derive"] }
serde_json = "1"
url = "2"
regex = "1"
chrono = "0.4"
uuid = { version = "1", features = ["v4"] }
anyhow = "1"
thiserror = "*"
async-trait = "0.1"
tokio = { version = "1", features = ["rt-multi-thread", "macros", "time", "net", "sync"] }
tokio-util = { version = "0.7", features = ["compat"] }
futures = "0.3"
reqwest = { version = "0.12", features = ["json"] }
async-imap = "*"
async-native-tls = "*"
rusqlite = "*"
r2d2 = "*"
r2d2_sqlite = "*"
tracing = "0.1"
tracing-subscriber = { version = "0.3", features = ["env-filter"] }
