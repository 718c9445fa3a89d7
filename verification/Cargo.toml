[package]
name = "ai_api_gateway"
version = "0.1.0"
edition = "2021"
publish = false

[dependencies]
async-trait = "*"
axum = "*"
dotenvy = "*"
futures-util = "*"
opentelemetry = "*"
opentelemetry-appender-tracing = "*"
opentelemetry_sdk = "*"
opentelemetry-stdout = "*"
rand = "*"
reqwest = { version = "*", default-features = false }
serde = { version = "1", features = ["derive"] }
serde_json = "1"
sqlx = { version = "*", default-features = false, features = ["postgres", "runtime-tokio"] }
tokio = { version = "1", features = ["full"] }
toml = "*"
tracing = "*"
tracing-subscriber = "*"
