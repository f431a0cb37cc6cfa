//! A critical section whose handle is constructed on first use, and the
//! one-time latch that it is built on.
//!
//! [`once`] and [`critical_section`] hold the code that runs: one round at
//! the latch, which never blocks, and the decisions that a round is made of.
//! [`race`] and [`exclusion`] hold what is proved of any number of callers
//! that run such rounds against each other: that the initializer runs once
//! and before anybody gets past the latch, and that no two callers hold the
//! section together.

pub mod critical_section;
pub mod exclusion;
pub mod once;
pub mod race;
