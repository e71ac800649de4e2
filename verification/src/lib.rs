//! Keeps a set of DNS names warm: each name is driven through an unbounded
//! refresh cycle (issue a bounded resolution attempt, wait out the reported
//! validity window, refresh) by a small per-name state machine.
//!
//! The state machine and the scheduling rules live here and are verified;
//! the surrounding process (argument handling, the actual resolver calls,
//! the async timers) drives the machine by handing it events and performing
//! the actions it returns.

pub mod orchestrate;
pub mod refresh;
pub mod schedule;
