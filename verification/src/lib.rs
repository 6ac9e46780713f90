//! Outbound-response dispatch for a message broker's network front end.
//!
//! A single dispatcher takes response packages off one ingress queue and
//! spreads them, round-robin by a sequence counter, over a fixed pool of
//! bounded worker queues. Each worker handles its packages one at a time:
//! it resolves the connection's protocol, has the frame written, and runs
//! the disconnect cascade for disconnect packets. Everything that waits
//! (queue reads, frame writes, sleeps) is left to the host; this crate holds
//! the decisions, each with a contract.

pub mod dispatcher;
pub mod latency;
pub mod package;
pub mod pool;
pub mod queue;
pub mod shard;
pub mod signal;
pub mod worker;
