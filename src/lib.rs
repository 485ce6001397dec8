//! A framework for nodes of a message-passing system: typed protocol
//! messages, request/reply correlation, retry policy, and a gossip-based
//! broadcast engine.
pub mod backoff_policy;
pub mod gossip;
pub mod error;
pub mod node;
pub mod protocol;
pub mod server;
pub mod unique_id;
