//! Shared vendoring abstraction for Go and Rust modules.
//!
//! A unified implementation for vendoring dependencies from upstream tar
//! archives. Language-specific behavior is controlled via
//! [`VendorConfig`](config::VendorConfig).

pub mod config;
pub mod error;
pub mod job_laws;
pub mod laws;
pub mod plan;
pub mod run;
pub mod script_laws;
pub mod url;
pub mod view_laws;
