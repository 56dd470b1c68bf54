[package]
name = "lambda_log_filter"
version = "0.1.0"
edition = "2021"
publish = false

[dependencies]
regex = "=1.13.1"
serde_json = "=1.0.151"
chrono = "=0.4.45"
aws-lambda-log-proxy = "=0.4.0"
tokio = { version = "=1.53.2", features = ["macros", "rt-multi-thread"] }
