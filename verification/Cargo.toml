[package]
name = "apigw_router"
version = "0.1.0"
edition = "2021"
publish = false

[dependencies]
async-trait = "*"
aws_lambda_events = "*"
base64 = "*"
flate2 = "*"
lambda_runtime = "*"
serde = { version = "*", features = ["derive"] }
serde_json = "*"
serde_json_path_to_error = "*"
tokio = { version = "*", features = ["macros", "rt"] }
tracing = "*"
tracing-subscriber = "*"

[dev-dependencies]
