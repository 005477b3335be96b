[package]
name = "groupify"
version = "0.1.0"
edition = "2021"
publish = false

[dependencies]
anyhow = "=1.0.104"
axum = { version = "=0.8.9", default-features = false, features = ["form", "http1", "json", "matched-path", "query", "tokio"] }
base64 = "=0.22.1"
bytes = "=1.12.1"
chrono = { version = "=0.4.45", default-features = false, features = ["clock", "serde"] }
deadpool-redis = { version = "=0.23.1", default-features = false, features = ["rt_tokio_1"] }
dotenvy = "=0.15.7"
hyper = { version = "=1.12.0", default-features = false }
jsonwebtoken = "=9.3.1"
oauth2 = { version = "=4.4.2", default-features = false }
once_cell = "=1.21.4"
opentelemetry = "=0.31.0"
opentelemetry-otlp = { version = "=0.31.1", features = ["grpc-tonic"] }
opentelemetry_sdk = { version = "=0.31.0", features = ["testing"] }
reqwest = { version = "=0.12.28", default-features = false, features = ["json", "rustls-tls"] }
sea-orm = { version = "=1.1.20", default-features = false, features = ["macros", "runtime-tokio", "sqlx-postgres", "with-chrono"] }
serde = { version = "=1.0.229", features = ["derive"] }
serde_json = { version = "=1.0.154", features = ["preserve_order", "raw_value"] }
sqlx = { version = "=0.8.6", default-features = false, features = ["chrono", "derive", "macros", "postgres", "runtime-tokio", "time"] }
time = "=0.3.55"
tokio = { version = "=1.54.1", features = ["macros", "net", "rt-multi-thread"] }
tower = { version = "=0.5.3", features = ["util"] }
tower-cookies = "=0.11.0"
tower-http = { version = "=0.6.11", features = ["cors", "request-id", "trace"] }
tower-sessions = "=0.15.0"
tracing = "=0.1.44"
tracing-otel-extra = { version = "=0.32.0", features = ["logger"] }
tracing-subscriber = "=0.3.23"
uuid = { version = "=1.29.0", features = ["v4"] }
