[package]
name = "qa_service"
version = "0.1.0"
edition = "2021"
publish = false

[dependencies]
axum = "0.7"
dotenvy = "0.15"
pretty_env_logger = "0.5"
serde = { version = "1", features = ["derive"] }
sqlx = { version = "0.8", default-features = false, features = ["runtime-tokio", "postgres", "uuid", "time"] }
tokio = { version = "1", features = ["macros", "rt-multi-thread", "net"] }
