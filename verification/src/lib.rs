//! A verified core for a local HTTP forward proxy: request-head parsing and
//! normalization, filter-based routing decisions, and the byte-level
//! contracts of the per-connection handler. The socket I/O around it —
//! accepting clients, opening upstreams, downloading the filter list — lives
//! outside the library and executes exactly what these functions decide.

pub mod agent;
pub mod bytes;
pub mod connection;
pub mod engine;
pub mod error;
pub mod http;
pub mod outside;
pub mod reader;
pub mod server;
