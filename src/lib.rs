//! A small Model Context Protocol server core: a registry of documentation
//! resources and prompt templates, and a JSON-RPC dispatcher over it.
//!
//! Network and JSON encoding happen outside this crate: the dispatcher is
//! handed decoded requests, and where a handler needs a remote body it asks
//! its caller to fetch it and resumes with the outcome.
pub mod catalog;
pub mod envelope;
pub mod guides;
pub mod handler;
pub mod laws;
pub mod model;
pub mod registry;
pub mod rpc;
pub mod server;
pub mod text;
pub mod transport;
pub mod wire;
