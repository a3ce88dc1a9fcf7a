[package]
name = "runtime_emulator"
version = "0.1.0"
edition = "2021"
publish = false

[dependencies]
bs58 = "0.5"
flate2 = "1"
regex = "1"
hex = "0.4"
serde = { version = "1", features = ["derive"] }
serde_json = "1"
tokio = { version = "1", features = ["macros", "rt-multi-thread", "net", "time"] }
hyper = { version = "1", features = ["http1", "server"] }
hyper-util = { version = "0.1", features = ["tokio"] }
http-body-util = "0.1"
aws-config = "1"
aws-sdk-sqs = "1"
lambda_runtime = "*"
tracing = "0.1"
tracing-subscriber = { version = "0.3", features = ["env-filter"] }
