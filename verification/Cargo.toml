[package]
name = "mood_log"
version = "0.1.0"
edition = "2021"
publish = false

[dependencies]
axum = "0.7"
tokio = { version = "1", features = ["full"] }
chrono = "0.4"
