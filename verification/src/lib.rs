//! Host core for a pluggable, hot-swappable module that drives a game timer.
//!
//! The crate verifies the host's concurrency and lifecycle engine: the timer
//! state machine the module drives, the optimistic compare-and-swap protocol
//! for the settings snapshot, the bounded-retry liveness guard used when a
//! module is swapped out, the tick scheduler's timing rules and telemetry,
//! and the load/reload/restart lifecycle transitions.
pub mod clock;
pub mod host;
pub mod liveness;
pub mod sched;
pub mod settings;
pub mod telemetry;
pub mod timer;
