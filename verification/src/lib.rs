//! A hotlap timer: elapsed time split into clock fields, a ledger of named
//! milestones with reference times and deltas, and the state machine that
//! drives a run from start to finish.

pub mod clock;
pub mod laws;
pub mod ledger;
pub mod text;
pub mod timer;
