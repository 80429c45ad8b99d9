//! The logic of a terminal process simulator: a fixed roster of simulated
//! processes, each driven by a worker, under a controller that starts, pauses,
//! stops and displays them.
//!
//! Times are nanoseconds on one monotonic clock whose origin is the caller's
//! choice; process durations are milliseconds.

pub mod args;
pub mod behaviour;
pub mod clock;
pub mod drawing;
pub mod laws;
pub mod layout;
pub mod process;
pub mod random;
pub mod reading;
pub mod roster;
pub mod screen;
pub mod simulation;
pub mod text;
pub mod worker;
