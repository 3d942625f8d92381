[package]
name = "fraud_guard"
version = "0.1.0"
edition = "2021"
publish = false

[dependencies]
async-trait = "*"
chrono = "*"
dotenvy = "*"
kameo = "*"
lapin = "*"
serde = { version = "*", features = ["derive"] }
serde_json = "*"
sqlx = { version = "*", default-features = false, features = ["chrono", "json", "postgres", "runtime-tokio", "uuid"] }
thiserror = "*"
tokio = { version = "*", features = ["macros", "rt-multi-thread", "signal", "sync", "time"] }
tokio-stream = "*"
tracing = "*"
tracing-subscriber = { version = "*", features = ["env-filter"] }
uuid = { version = "*", features = ["v4"] }
