[package]
name = "motorbot"
version = "0.1.0"
edition = "2021"
publish = false

[dependencies]
regex = "1"
rand = "0.9"
chrono = "0.4"
scraper = "0.20"
serde_json = "1"
serde = { version = "1", features = ["derive"] }
serenity = { version = "0.12", default-features = false, features = ["builder", "cache", "client", "gateway", "model", "http", "utils", "rustls_backend"] }
tokio = { version = "1", features = ["macros", "rt-multi-thread", "time"] }
reqwest = { version = "0.12", default-features = false, features = ["json", "rustls-tls"] }
rusqlite = { version = "0.32", features = ["bundled"] }
tracing = "0.1"
tracing-subscriber = "0.3"
dotenv = "0.15"
clokwerk = "0.4"
async-trait = "0.1"
derive_more = { version = "2", features = ["display", "from"] }
futures = "0.3"
