//! A server that answers every HTTP request with one configured file.
//!
//! The library holds what the server decides: its configuration and the
//! defaults of its optional settings, the reply to a request given the
//! outcome of reading the served file, and the acceptor's course from
//! resolving its address to serving connections.
pub mod acceptor;
pub mod config;
pub mod handler;
