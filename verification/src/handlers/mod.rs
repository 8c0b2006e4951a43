//! What the tools share, and what each tool computes around its call to
//! the upstream API.

pub mod common;
pub mod dashboards;
pub mod events;
pub mod hosts;
pub mod logs;
pub mod logs_aggregate;
pub mod logs_timeseries;
pub mod metrics;
pub mod monitors;
pub mod rum;
pub mod services;
pub mod spans;
