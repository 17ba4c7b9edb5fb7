[package]
name = "engagement"
version = "0.1.0"
edition = "2021"
publish = false

[dependencies]
chrono = "*"
tokio = { version = "*", features = ["rt-multi-thread", "macros", "net"] }
axum = "*"
serde = { version = "*", features = ["derive"] }
serde_json = "*"
reqwest = { version = "*", default-features = false, features = ["json"] }
sqlx = { version = "*", default-features = false, features = ["runtime-tokio", "mysql", "chrono"] }
anyhow = "*"
thiserror = "*"
async-trait = "*"
tower = "*"
futures-util = "*"
tower-http = { version = "*", features = ["cors", "trace"] }
tracing = "*"
log = "*"
env_logger = "*"
