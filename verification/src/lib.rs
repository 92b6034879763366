//! Fleet status aggregation: a control node gates, by a cycles threshold,
//! whether the satellites of the fleet are polled at all; per-unit outcomes,
//! success or failure, are merged into one aggregate report.
//!
//! The verified core holds the data model, the threshold evaluator, the
//! per-unit result shaping, the enable/disable filtering of satellites, and
//! the orchestration state machine that decides when to exit early and when
//! to fan out. Performing the remote queries themselves, and recording each
//! outcome to the store, is left to the embedding runtime, which drives the
//! state machine with the results it obtained.

pub mod collector;
pub mod fetch;
pub mod satellites;
pub mod threshold;
pub mod types;
