//! A rendezvous relay: one Horizon shares a live message stream with any
//! number of Voyagers, grouped by a short session code.
//!
//! The crate holds the session registry, the routing rules between the two
//! roles, the session-id generator, the control frames the relay itself
//! emits, the shared-secret check and the per-connection lifecycle. Sockets,
//! HTTP and task scheduling are the caller's business.

pub mod access;
pub mod admin;
pub mod connection;
pub mod control;
pub mod frame;
pub mod lemmas;
pub mod queue;
pub mod role;
pub mod router;
pub mod registry;
pub mod session;
pub mod session_id;
pub mod text;
