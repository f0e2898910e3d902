[package]
name = "stocks_api"
version = "0.1.0"
edition = "2021"
publish = false

[dependencies]
validator = { version = "=0.21.0", features = ["derive"] }
rust_decimal = { version = "=1.43.0", features = ["serde"] }
chrono = { version = "=0.4.45", features = ["serde"] }
serde = { version = "=1.0.229", features = ["derive"] }
serde_json = "=1.0.154"
axum = "=0.8.9"
sqlx = { version = "=0.9.0", default-features = false, features = ["postgres", "runtime-tokio", "chrono", "rust_decimal"] }
tokio = { version = "=1.54.1", features = ["full"] }
tower-http = { version = "=0.7.1", features = ["cors"] }
utoipa = { version = "=6.0.0", features = ["axum_extras", "chrono", "decimal"] }
utoipa-swagger-ui = { version = "=10.0.2", features = ["axum", "vendored"] }
anyhow = "=1.0.104"
dotenvy = "=0.15.7"
