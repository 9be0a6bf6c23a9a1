[package]
name = "edu_points"
version = "0.1.0"
edition = "2021"
publish = false

[dependencies]
anyhow = "1"
chrono = "0.4"
rand = "0.8"
serde = { version = "1", features = ["derive"] }
sqlx = { version = "0.8", default-features = false, features = ["sqlite", "runtime-tokio", "derive"] }
tauri = { version = "2", default-features = false }
tracing = "0.1"
tracing-subscriber = "0.3"
