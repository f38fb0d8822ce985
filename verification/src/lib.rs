//! Queue lifecycle and offchain request-dispatch engine bridging a
//! deterministic on-chain state machine with a local content-addressed
//! storage node.
//!
//! Users submit intents (connect to a peer, publish bytes, pin or unpin
//! content, resolve DHT queries) which are recorded as queued commands.
//! A per-block scheduler clears the queues on a fixed cadence, and an
//! off-path worker drains snapshots of them, issuing deadline-guarded
//! requests to the local node and reporting results through logging only.
//!
//! The consensus-critical side (submission handlers, scheduler) is pure
//! state manipulation; the offchain side is modelled as pure decision
//! logic over a queue snapshot and the sequence of node outcomes, so that
//! the surrounding runtime performs the actual node I/O.

pub mod commands;
pub mod driver;
pub mod laws;
pub mod protocol;
pub mod scheduler;
pub mod store;
