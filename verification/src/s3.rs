//! Delivery of objects to S3-compatible storage.

pub mod checksum;
pub mod delivery;
pub mod event;
pub mod failure;
pub mod form;
pub mod health;
pub mod laws;
pub mod order;
pub mod parse;
pub mod request;
pub mod sdk;
pub mod signal;
pub mod tags;
