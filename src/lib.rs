//! Turns an in-memory OpenAPI document into the source text of a typed
//! HTTP client: one record per schema, one request function per operation,
//! and the transport scaffolding around them.
pub mod text;
pub mod document;
pub mod diagnostics;
pub mod naming;
pub mod resolve;
pub mod types;
pub mod models;
pub mod routes;
pub mod client_config;
pub mod args;
pub mod manifest;
pub mod generator;

