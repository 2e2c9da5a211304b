[package]
name = "graphql_service"
version = "0.1.0"
edition = "2021"
publish = false

[dependencies]
async-graphql = "4.0"
async-graphql-axum = "4.0"
axum = "0.5"
dotenv = "0.15"
metrics = "0.20"
metrics-exporter-prometheus = { version = "0.11", default-features = false }
opentelemetry = "0.17"
opentelemetry-jaeger = "0.16"
serde = { version = "1", features = ["derive"] }
tokio = { version = "1", features = ["macros", "rt-multi-thread", "signal"] }
tracing = "0.1"
tracing-opentelemetry = "0.17"
tracing-subscriber = "0.3"

[dev-dependencies]
serde_json = "1"
