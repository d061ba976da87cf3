//! Kafka authentication settings and S3 delivery decisions, verified.

pub mod kafka;
pub mod s3;
pub mod text;
