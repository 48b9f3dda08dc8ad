[package]
name = "chat_sync"
version = "0.1.0"
edition = "2021"
publish = false

[dependencies]
uuid = { version = "1", features = ["v4"] }
url = { version = "2", features = ["serde"] }
validator = "*"
nanoid = "*"
time = { version = "0.3", features = ["serde"] }
serde = { version = "1", features = ["derive"] }
serde_json = "1"
tokio = { version = "1", features = ["sync", "time", "rt", "macros"] }
axum = { version = "0.8", features = ["ws"] }
dashmap = "*"
reqwest = { version = "0.12", default-features = false, features = ["json"] }
moka = { version = "0.12", features = ["future"] }
async-trait = "0.1"
futures = "0.3"
ipnet = { version = "2", features = ["serde"] }
thiserror = "*"
anyhow = "1"
tracing = "0.1"
headers = "*"
http = "1"
sqlx = { version = "0.8", default-features = false, features = ["postgres", "runtime-tokio", "uuid", "time"] }
