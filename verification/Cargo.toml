[package]
name = "trace_bridge"
version = "0.1.0"
edition = "2021"
publish = false

[dependencies]
aws-config = { version = "=1.13.0", default-features = false, features = ["rt-tokio"] }
aws-sdk-sqs = { version = "=1.117.0", default-features = false, features = ["rt-tokio"] }
aws_lambda_events = { version = "=0.15.1", default-features = false, features = ["apigw", "sqs"] }
chrono = { version = "=0.4.45", default-features = false, features = ["clock", "std"] }
lambda_http = "=0.12.0"
lambda_runtime = "=0.12.0"
opentelemetry = "=0.23.0"
opentelemetry-datadog = "=0.11.0"
opentelemetry_sdk = "=0.23.0"
reqwest = { version = "=0.12.28", default-features = false, features = ["json"] }
reqwest-middleware = "=0.4.2"
reqwest-tracing = "=0.5.8"
serde_json = "=1.0.154"
tokio = { version = "=1.54.1", features = ["macros", "rt-multi-thread"] }
tower = { version = "=0.4.13", features = ["util"] }
tracing = "=0.1.44"
tracing-subscriber = { version = "=0.3.23", features = ["json", "env-filter"] }
uuid = { version = "=1.29.0", features = ["v4"] }
