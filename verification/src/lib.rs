//! Core of a desktop chat client for a federated messaging protocol.
//!
//! The library is the background session manager: it owns the registry of
//! sessions to one or more chat servers, multiplexes commands arriving from
//! the user-interface thread, and drives one synchronization task per active
//! session. All decisions are made by the verified state machines in this
//! crate; the surrounding process performs the network calls and channel
//! plumbing and feeds their outcomes back in as plain values.

pub mod commands;
pub mod host;
pub mod laws;
pub mod manager;
pub mod session;
pub mod sync_task;
