[package]
name = "webp_transcoder"
version = "0.1.0"
edition = "2021"
publish = false

[dependencies]
aws-config = "*"
aws_lambda_events = "*"
aws-sdk-s3 = "*"
image = "*"
lambda_runtime = "*"
tokio = { version = "*", features = ["macros", "rt-multi-thread"] }
webp = "*"
