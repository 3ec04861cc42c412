//! Verified core of a parallel code-analysis and planning orchestrator.
//!
//! The crate models the orchestration logic itself: chunking file sets,
//! retry scheduling with jittered backoff, tolerant extraction of structured
//! findings and plans from free-form provider text, run-state tracking, and
//! the per-unit status bookkeeping of the analysis and planning schedulers.
//! Calls into outside crates (hashing, JSON/YAML parsing, randomness, time)
//! stand behind small trusted wrappers; everything around them is verified.

pub mod config;
pub mod decode;
pub mod discovery;
pub mod errors;
pub mod finding;
pub mod github;
pub mod jsonscan;
pub mod jsonvalue;
pub mod markdown;
pub mod parser;
pub mod planner;
pub mod postprocess;
pub mod provider;
pub mod report;
pub mod retry;
pub mod runner;
pub mod state;
pub mod strutil;
pub mod text;
pub mod tui;
