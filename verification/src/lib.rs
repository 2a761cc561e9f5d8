//! A one-dimensional lattice random-walk simulator core.
//!
//! The library holds the verified heart of the simulator: the lattice of
//! occupancy counts, the walker step rule with its boundary policy, the
//! event aggregator that owns the transition counter, the tick-coordination
//! bookkeeping, and the reporter/driver phase machine. Thread spawning,
//! locking disciplines, randomness and text output live in the surrounding
//! application, which only feeds plain values into these verified functions.

pub mod aggregator;
pub mod coordinator;
pub mod direction;
pub mod driver;
pub mod lattice;
pub mod walker;
