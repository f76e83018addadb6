//! A verified core for a one-shot command-line HTTP client.
//!
//! The library validates command-line options into an [`config::AppConfiguration`],
//! turns a validated configuration into a wire-ready request descriptor
//! ([`request::BuiltRequest`]), and formats the status line that precedes the
//! response body on standard output. The unverified binary around it only reads
//! the process arguments, reads the optional body file, performs the network
//! exchange, and writes bytes out.

pub mod config;
pub mod laws;
pub mod output;
pub mod request;
pub mod text;

pub use config::HttpMethod;
