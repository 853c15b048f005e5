//! Orchestration of parallel sub-agent runs: output sinks that capture each
//! agent's transcript, summary extraction from a finished transcript,
//! per-agent progress tracking, a live status board, and aggregation of all
//! agents' reports into one combined result.

pub mod agent;
pub mod aggregate;
pub mod io_traits;
pub mod orchestrate;
pub mod runner;
pub mod summary;
pub mod text;
