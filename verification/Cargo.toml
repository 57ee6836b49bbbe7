[package]
name = "s3_benchrunner_rust"
version = "0.1.0"
edition = "2021"
publish = false

[dependencies]
anyhow = "*"
async-trait = "*"
aws-config = "*"
aws-sdk-s3 = "*"
opentelemetry = { version = "=0.23.0", features = ["trace", "metrics", "logs"] }
opentelemetry-appender-tracing = "=0.4.0"
opentelemetry-otlp = { version = "=0.16.0", features = ["trace", "metrics", "logs", "grpc-tonic"] }
opentelemetry_sdk = { version = "=0.23.0", features = ["rt-tokio", "logs_level_enabled"] }
opentelemetry-semantic-conventions = "=0.15.0"
serde = { version = "*", features = ["derive"] }
serde_json = "*"
thiserror = "*"
tokio = { version = "*", features = ["full"] }
tracing = "*"
tracing-subscriber = { version = "*", features = ["env-filter"] }
