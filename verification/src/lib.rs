//! Packet-relay core of a validator's transaction-ingestion path.
//!
//! Verified packets fan out to a pool of workers. Each worker offers a copy
//! of every packet to a bounded mirror channel (best-effort, never blocking
//! the primary path) and holds the packet itself in its own delay buffer
//! until a fixed delay window has elapsed, then releases it downstream in
//! arrival order. A connection manager owns the one authenticated stream to
//! the external engine, reconnecting with a fixed backoff and emitting
//! periodic heartbeats, and a flat stats registry aggregates counters and
//! gauges from all of them.
//!
//! The decision logic lives here, with contracts; threads, channels, clocks
//! and sockets are the caller's.

pub mod block;
pub mod builder;
pub mod delay_buffer;
pub mod engine;
pub mod mirror;
pub mod organizer;
pub mod stats;
pub mod worker;
