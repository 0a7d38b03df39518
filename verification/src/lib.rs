//! A connection manager that lets a `deadpool` managed pool hand out `libsql`
//! connections.
//!
//! The manager opens new connections and decides, each time the pool takes a
//! connection back, whether it may be handed out again. The decision rests on
//! a health check: a query echoes a probe value that no other check of the same
//! manager uses, and the connection is kept only if the echo equals the probe.
//!
//! The crate decides and does no input or output of its own. Whoever drives it
//! opens the connection, executes the query and reads the row, and hands each
//! outcome to the health check:
//!
//! - [`manager`]: the manager, its database handle and its counter;
//! - [`probe`]: the counter's arithmetic, and why probes do not repeat;
//! - [`health`]: the health check, one function for each outcome it takes;
//! - [`failure`]: the reasons for condemning a connection, and their messages;
//! - [`trusted`]: what is taken from `libsql` and `deadpool` unproved.

pub mod failure;
pub mod health;
pub mod manager;
pub mod probe;
pub mod trusted;

pub use crate::failure::RecycleFailure;
pub use crate::health::HealthCheck;
pub use crate::manager::Manager;
