//! The outbound side: request descriptions, response classification and the
//! retry policy.

pub mod client;
pub mod models;
pub mod retry;

pub use client::DatadogClient;
