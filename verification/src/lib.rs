//! State synchronization core for a sharded blockchain node.
//!
//! The crate drives the bulk transfer of per-shard state: a small header is
//! fetched first, then the numbered parts, from peers or from an external
//! object store, with bounded concurrency and per-slot retry.  The driver
//! advances every tracked shard one step per tick and reports whether the
//! whole sync is complete.
//!
//! Network transport, the object-store client and the schedulers that apply
//! downloaded parts are collaborators outside this crate.  The driver reads
//! their data as plain values ([`chain::ChainEnv`], [`chain::EpochManagerEnv`]),
//! receives their completions as messages, and emits the requests it wants
//! performed as [`types::Action`] values.

pub mod assoc;
pub mod chain;
pub mod laws;
pub mod metrics;
pub mod names;
pub mod state;
pub mod types;
