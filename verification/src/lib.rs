//! A verified client-side sidecar library for a Jupyter-style compute kernel.
//!
//! The library covers the signed multipart wire codec, the typed message
//! taxonomy, the per-request completion state machine, the observer
//! machinery (message counting and output aggregation), the routing of
//! decoded replies to in-flight requests, and an in-memory notebook model.
//! Socket transport, timers and file persistence live outside the library
//! and hand it plain values.

pub mod actions;
pub mod client;
pub mod connection;
pub mod handlers;
pub mod header;
pub mod jsontext;
pub mod jsonvalue;
pub mod notebook;
pub mod request;
pub mod response;
pub mod router;
pub mod textfmt;
pub mod wire_protocol;
