[package]
name = "hatsu"
version = "0.1.0"
edition = "2021"
publish = false

[dependencies]
activitypub_federation = { version = "=0.6.6", default-features = false, features = ["axum"] }
aide = { version = "=0.13.5", features = ["axum"] }
async-trait = "=0.1.92"
axum = "=0.7.9"
chrono = "=0.4.45"
feed-rs = "=3.0.0"
reqwest = { version = "=0.12.28", default-features = false, features = ["json", "rustls-tls"] }
sea-orm = { version = "=2.0.4", default-features = false, features = ["macros", "runtime-tokio-rustls", "sqlx-postgres"] }
serde = { version = "=1.0.229", features = ["derive"] }
serde_json = "=1.0.154"
tokio = { version = "=1.54.1", features = ["macros", "net", "rt-multi-thread"] }
tokio-graceful-shutdown = "=0.20.0"
tower-http = { version = "=0.6.11", features = ["cors", "trace"] }
tracing = "=0.1.44"
url = "=2.5.8"
