[package]
name = "media_api"
version = "0.1.0"
edition = "2021"
publish = false

[dependencies]
uuid = { version = "1", features = ["v4"] }
chrono = { version = "0.4", features = ["serde"] }
serde = { version = "1", features = ["derive"] }
serde_json = "1"
anyhow = "1"
axum = { version = "0.7", features = ["multipart"] }
tokio = { version = "1", features = ["full"] }
tower-http = { version = "0.5", features = ["cors", "trace"] }
tracing = "0.1"
utoipa = { version = "4", features = ["axum_extras", "chrono"] }
jsonwebtoken = "9"
rdkafka = "0.36"
aws-config = "1"
aws-credential-types = "1"
aws-sdk-s3 = "1"
