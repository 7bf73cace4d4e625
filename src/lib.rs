//! Checks recurring tasks against their declared cadence, using the
//! modification time of one marker file per task.

pub mod schedule;
pub mod store;
pub mod report;
pub mod clock;
pub mod laws;
pub mod nesting;
