//! A statistical estimator for the generalized Monty Hall game: play many
//! randomized trials of the stay or switch strategy over a configurable number
//! of doors and report the observed win rate.
//!
//! The library holds the verified core: configuration validation, the trial
//! generator, the running statistics and final summary, the worker step that
//! draws and forwards one outcome, the cancellation token, and the
//! orchestrator's lifecycle. Thread spawning, timing and terminal output
//! around it are left to the embedding program.

pub mod cancel;
pub mod config;
pub mod phase;
pub mod stats;
pub mod trial;
pub mod worker;
