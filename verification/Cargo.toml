[package]
name = "decision_service"
version = "0.1.0"
edition = "2021"
publish = false

[dependencies]
zen-engine = "=0.55.1"
serde = { version = "*", features = ["derive"] }
serde_json = "*"
tokio = { version = "*", features = ["rt-multi-thread", "macros", "net"] }
axum = { version = "*", default-features = false, features = ["http1", "json", "tokio"] }
tower-http = { version = "*", features = ["cors", "fs", "set-status"] }
