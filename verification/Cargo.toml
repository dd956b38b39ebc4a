[package]
name = "fossapi"
version = "0.1.0"
edition = "2021"
publish = false

[dependencies]
urlencoding = "=2.1.3"
serde = { version = "=1.0.229", features = ["derive"] }
serde_json = "=1.0.151"
clap = { version = "=4.6.7", features = ["derive"] }
reqwest = { version = "=0.13.5", default-features = false, features = ["json", "query"] }
axum = "=0.8.9"
tokio = { version = "=1.53.2", features = ["rt-multi-thread", "net", "sync", "macros", "time"] }
chrono = { version = "=0.4.45", features = ["serde"] }
url = "=2.5.8"
rmcp = { version = "=3.5.1", features = ["transport-io"] }
schemars = "=1.2.2"
tabled = "=0.22.0"
