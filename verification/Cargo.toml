[package]
name = "queue_session"
version = "0.1.0"
edition = "2021"
publish = false

[dependencies]
aws-config = { version = "1", default-features = false, features = ["default-https-client", "rt-tokio"] }
aws-credential-types = "1"
aws-sdk-sqs = { version = "1", default-features = false, features = ["default-https-client", "rt-tokio"] }
serde = { version = "1", features = ["derive"] }
