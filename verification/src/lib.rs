//! A verified core for tracking the oldest block still retrievable on a
//! master chain whose server may prune old history at any time.
//!
//! The crate holds the decision logic as explicit state machines:
//! [`finder::Finder`] runs the binary search that locates the earliest
//! fetchable block, and [`tracker::TrackerState`] drives repeated discovery
//! rounds, publishing each result. Remote lookups, timers and cancellation
//! are performed outside; the machines here say, for every outcome of those
//! operations, what happens next.

pub mod block;
pub mod finder;
pub mod tracker;
