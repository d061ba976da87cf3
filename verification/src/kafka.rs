//! Authentication of Kafka clients.

pub mod auth;
pub mod client;
pub mod config;
pub mod error;
pub mod laws;
pub mod path;
pub mod token;
