//! Bookkeeping and dispatch rules for a client that watches a PipeWire
//! registry, together with the access permissions of PipeWire objects.
//!
//! - [`object`]: the objects that a registry announces, and how each kind is
//!   handled.
//! - [`table`]: the table that owns every live proxy with its listeners.
//! - [`session`]: the state of one client, advanced one event at a time.
//! - [`laws`]: what holds of every session over any sequence of events.
//! - [`permissions`]: the permissions of a client on an object.

pub mod laws;
pub mod object;
pub mod permissions;
pub mod session;
pub mod table;
