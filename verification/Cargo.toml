[package]
name = "vector_delivery"
version = "0.1.0"
edition = "2021"
publish = false

[dependencies]
aws-msk-iam-sasl-signer = "1"
aws-sdk-s3 = { version = "1", default-features = false, features = ["rt-tokio"] }
aws-smithy-runtime-api = { version = "1", features = ["client"] }
aws-smithy-types = "1"
aws-types = "1"
base64 = "0.22"
bytes = "1"
futures = "0.3"
md-5 = "0.10"
metrics = "0.24"
rdkafka = { version = "*", default-features = false }
serde = { version = "1", features = ["derive"] }
snafu = "0.8"
tokio = { version = "1", features = ["rt-multi-thread", "time"] }
tower = "0.5"
tracing = "0.1"
url = "2"
