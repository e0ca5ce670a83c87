//! Configuration layer for a rotating file logger and a shared HTTP client.
//!
//! The crate computes, as plain verified data, everything that the two
//! backends are configured with: the logger's directory, severity filter,
//! flush and rotation policy, the rendered log line, and the outgoing HTTP
//! request with its default headers. Driving the actual backends (opening
//! files, sending requests) is left to the embedding application.

pub mod error;
pub mod format;
pub mod http;
pub mod level;
pub mod logger;
