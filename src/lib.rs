//! Client-side discovery of an HTTP proxy for a target URL.
//!
//! The library holds the decisions of the discovery procedure: target
//! normalisation, the subnet candidates, the proxy cache, the trusted CA
//! choice and the negotiation state machine. The network, the file system
//! and the worker pool are driven by the caller.
pub mod cache;
pub mod discover;
pub mod subnet;
pub mod target;
pub mod trust;
