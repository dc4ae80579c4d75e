//! Coordinator core for a small ecosystem of generative-fractal processes.
//!
//! The crate scores the health and activity of externally reported component
//! state, keeps a bounded history for trend detection, schedules a set of
//! timer-gated decision strategies, and encodes the resulting commands.
//! Scores and parameters are carried as milli-units: the integer 1000 stands
//! for the real value 1.0. Timestamps are seconds since the Unix epoch.

pub mod fixed;
pub mod text;
pub mod ecosystem;
pub mod analysis;
pub mod strategies;
pub mod coordinator;
pub mod external;
