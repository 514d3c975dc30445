[package]
name = "serverless_todos"
version = "0.1.0"
edition = "2021"
publish = false

[dependencies]
async-trait = "*"
aws-config = { version = "*", features = ["behavior-version-latest"] }
aws-sdk-dynamodb = "*"
lambda_http = "*"
serde = { version = "*", features = ["derive"] }
serde_json = "*"
tokio = { version = "*", features = ["macros", "rt-multi-thread"] }
tracing = "*"
tracing-subscriber = "*"
