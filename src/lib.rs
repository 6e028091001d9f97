//! A small host telemetry agent: layered configuration resolution, interval
//! scheduling and the wire encoding of sampled system statistics.

pub mod endpoint;
pub mod error;
pub mod duration;
pub mod config;
pub mod settings_file;
pub mod cli;
pub mod scheduler;
pub mod snapshot;
