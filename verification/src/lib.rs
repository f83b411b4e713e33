//! A client for the REST API of the LXD daemon.
//!
//! The crate decides and the caller carries. It resolves the endpoint, builds
//! each request the same way for a network address and for a local socket,
//! reads the envelope around every answer, and follows an operation of the
//! daemon to its end. It opens no connection, reads no environment and never
//! sleeps: requests are handed out as values, answers are taken in as bytes,
//! and the tracker says how long to sleep.

pub mod client;
pub mod endpoint;
pub mod envelope;
pub mod error;
pub mod fields;
pub mod images;
pub mod instance;
pub mod json;
pub mod operation;
pub mod request;
pub mod resource;
pub mod timestamp;
pub mod tracker;
pub mod types;
