//! Core of a per-node connection-lifecycle keeper for a shard-aware database
//! client.
//!
//! A keeper owns one logical connection slot to a network address. A
//! background driver establishes the connection asynchronously and publishes
//! the outcome; any number of readers observe the published state without
//! blocking. This crate holds the verified decision core of that component:
//! the published state machine, the shard-affine source-port selection, the
//! keyspace bookkeeping, and the rules that turn the driver's events into
//! published states. The asynchronous plumbing around it (task spawning,
//! the watch channel, the wire calls) lives outside the library and only
//! feeds events in and carries actions out.

pub mod connection;
pub mod errors;
pub mod keeper;
pub mod laws;
pub mod routing;

pub use connection::{Connection, VerifiedKeyspaceName};
pub use errors::QueryError;
pub use keeper::{ConnectionKeeper, ConnectionKeeperWorker, ConnectionState, WorkOutcome};
pub use routing::ShardInfo;
