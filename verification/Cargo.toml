[package]
name = "observability"
version = "0.1.0"
edition = "2021"
publish = false

[dependencies]
tokio = { version = "1", features = ["sync", "time", "rt", "rt-multi-thread", "macros", "fs", "io-util"] }
serde = { version = "1", features = ["derive"] }
serde_json = "1"
thiserror = "2"
tracing = "0.1"
tracing-subscriber = { version = "0.3", features = ["fmt", "registry", "ansi"] }
opentelemetry = "0.29"
opentelemetry_sdk = { version = "0.29", features = ["rt-tokio"] }
opentelemetry-otlp = { version = "0.29", default-features = false, features = ["grpc-tonic", "trace", "metrics", "logs"] }
opentelemetry-stdout = "0.29"
opentelemetry-appender-tracing = "0.29"
opentelemetry-semantic-conventions = { version = "0.29", features = ["semconv_experimental"] }
tracing-opentelemetry = "0.30"
reqwest = { version = "0.12", default-features = false, features = ["json", "rustls-tls"] }
rdkafka = "0.37"
async-trait = "0.1"
config = { version = "0.15", default-features = false, features = ["toml", "yaml"] }
chrono = { version = "0.4", features = ["serde"] }
