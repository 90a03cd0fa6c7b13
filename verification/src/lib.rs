//! A minimal single-node message queue, reachable over one-shot TCP
//! connections: a client sends one line of text and either enqueues it
//! (publish) or, by sending an empty line, dequeues the oldest pending
//! message (retrieve).
//!
//! This crate holds the verified core: the protocol decoder, the FIFO
//! message store, and the per-connection request handling. The network
//! plumbing (binding, accepting, reading and writing bytes) lives outside.

pub mod request;
pub mod store;
pub mod handler;
