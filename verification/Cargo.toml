[package]
name = "aws-pubsub-lite"
version = "0.1.0"
edition = "2021"
publish = false

[dependencies]
regex = "1"
serde_json = "1"
thiserror = "2"
anyhow = "1"
aws-config = { version = "1", default-features = false, features = ["rt-tokio"] }
aws-credential-types = "1"
aws-sdk-sns = { version = "1", default-features = false, features = ["rt-tokio"] }
aws-sdk-sqs = { version = "1", default-features = false, features = ["rt-tokio"] }
tokio = { version = "1", features = ["macros", "rt-multi-thread", "sync", "time"] }
tokio-retry = "0.3"
tokio-util = "0.7"
futures = "0.3"
tracing = "0.1"
