[package]
name = "notes_api"
version = "0.1.0"
edition = "2021"
publish = false

[dependencies]
uuid = { version = "*", features = ["v4"] }
axum = "*"
tokio = { version = "*", features = ["rt-multi-thread", "net", "macros"] }
sqlx = { version = "*", default-features = false, features = ["runtime-tokio", "postgres", "chrono", "macros"] }
serde = { version = "*", features = ["derive"] }
serde_json = "*"
dotenvy = "*"
tower-http = { version = "*", features = ["cors"] }
chrono = { version = "*", features = ["serde"] }
