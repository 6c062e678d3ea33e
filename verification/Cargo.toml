[package]
name = "log_pipeline"
version = "0.1.0"
edition = "2021"
publish = false

[dependencies]
aws-config = "1"
aws-sdk-dynamodb = "1"
aws-sdk-sqs = "1"
aws_lambda_events = "*"
chrono = "0.4"
http = "1"
lambda_http = "*"
lambda_runtime = "*"
regex = "1"
serde = { version = "1", features = ["derive"] }
serde_json = "1"
tokio = { version = "1", features = ["macros", "rt-multi-thread", "time"] }
uuid = { version = "1", features = ["v4"] }
