[package]
name = "user_service"
version = "0.1.0"
edition = "2021"
publish = false

[dependencies]
axum = "0.7"
tokio = { version = "1", features = ["macros", "rt-multi-thread", "net"] }
mongodb = "2"
futures = "0.3"
serde = { version = "1", features = ["derive"] }
