[package]
name = "rustboard_api"
version = "0.1.0"
edition = "2021"
publish = false

[dependencies]
chrono = "=0.4.45"
argon2 = "=0.6.0"
bcrypt = "=0.19.3"
uuid = { version = "=1.29.0", features = ["v4"] }
secrecy = { version = "=0.10.3", features = ["serde"] }
jsonwebtoken = "=9.3.1"
serde = { version = "=1.0.229", features = ["derive"] }
serde_json = "=1.0.154"
axum = { version = "=0.8.9", features = ["ws", "macros"] }
tokio = { version = "=1.54.1", features = ["full"] }
tower = "=0.5.3"
tower-http = { version = "=0.6.11", features = ["cors", "compression-gzip", "timeout", "trace"] }
tower_governor = "=0.8.0"
sqlx = { version = "=0.8.6", default-features = false, features = ["runtime-tokio", "postgres", "chrono", "macros", "migrate"] }
async-trait = "=0.1.92"
anyhow = "=1.0.104"
thiserror = "=2.0.21"
futures-util = "=0.3.34"
tracing = "=0.1.44"
tracing-subscriber = { version = "=0.3.23", features = ["env-filter", "json"] }
metrics = "=0.24.6"
utoipa = { version = "=5.5.0", features = ["axum_extras", "chrono"] }
utoipa-swagger-ui = { version = "=9.0.2", features = ["axum", "vendored"] }
opentelemetry = "=0.33.1"
opentelemetry_sdk = "=0.33.1"
opentelemetry-otlp = { version = "=0.33.1", features = ["grpc-tonic", "metrics", "trace"] }
opentelemetry-semantic-conventions = "=0.33.1"
tracing-opentelemetry = "=0.34.0"
config = "=0.15.27"
