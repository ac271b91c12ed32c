//! Connection-abstraction layer for WebSocket-style client/server
//! applications: a transport-agnostic message model, a per-connection
//! session actor driven as a state machine, a mailbox that backs the
//! session handle, a server-side session registry, and a client-side
//! reconnect controller with capped backoff.
//!
//! Everything here is plain value logic: the concrete transport, the
//! async event loop and all I/O live outside this crate and feed events
//! into the state machines defined here.

pub mod client;
pub mod mailbox;
pub mod message;
pub mod registry;
pub mod session;
