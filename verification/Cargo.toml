[package]
name = "tabby"
version = "0.1.0"
edition = "2021"
publish = false

[dependencies]
tantivy = { version = "=0.24.2", default-features = false }
chrono = { version = "=0.4.45", default-features = false, features = ["std", "clock"] }
reqwest = { version = "=0.12.28", default-features = false, features = ["rustls-tls"] }
serde = { version = "=1.0.229", features = ["derive"] }
serdeconv = "=0.4.1"
tokio = { version = "=1.54.1", features = ["rt", "macros", "sync", "fs", "io-util", "time"] }
tracing = "=0.1.44"
anyhow = "=1.0.104"
octocrab = { version = "=0.38.0", default-features = false, features = ["default-client", "rustls"] }
sqlx = { version = "=0.7.4", default-features = false, features = ["sqlite", "runtime-tokio"] }
async-stream = "=0.3.6"
futures = "=0.3.34"
lazy_static = "=1.5.1"
logkit = "=0.3.7"
