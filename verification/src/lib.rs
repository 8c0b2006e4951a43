//! Verified core of a Datadog tool server: a TTL/LRU cache, a retry policy
//! for outbound requests, and the JSON-RPC session engine that ties them
//! together.

pub mod cache;
pub mod clock;
pub mod datadog;
pub mod error;
pub mod handlers;
pub mod json;
pub mod server;
pub mod text;
pub mod utils;

pub use datadog::DatadogClient;
pub use error::DatadogError;
