//! Error types of the library.
//!
//! Payloads that the original sources of failure produce (I/O failures,
//! decode failures) are carried as plain message strings.

use vstd::prelude::*;

verus! {

/// Errors from loading or checking the configuration.
#[derive(Debug, Clone, PartialEq, Eq)]
pub enum ConfigError {
    /// The config file could not be read.
    ReadFile { path: String, message: String },
    /// The config file could not be decoded.
    Parse(String),
    /// A unit references a scope that the config does not define.
    UnknownScope(String),
    /// No unit is enabled.
    NoReviewersEnabled,
}

/// Errors from resolving file scopes.
#[derive(Debug, Clone, PartialEq, Eq)]
pub enum DiscoveryError {
    /// A glob pattern could not be built.
    GlobPattern { pattern: String, message: String },
    /// Walking a directory failed.
    Walk(String),
    /// Diffing against the base reference failed.
    GitDiff(String),
    /// Some other I/O failure.
    Io(String),
}

/// Errors from one provider invocation.
#[derive(Debug, Clone, PartialEq, Eq)]
pub enum ProviderError {
    /// The call exceeded its wall-clock budget; the payload is the
    /// configured timeout in milliseconds.
    Timeout(u64),
    /// The provider process could not be spawned or its pipes failed.
    Io(String),
    /// The provider process exited with a non-zero code.
    NonZeroExit { code: i32, stderr: String },
}

/// Errors from the analysis scheduler.
#[derive(Debug, Clone, PartialEq, Eq)]
pub enum RunnerError {
    /// No unit passed the enabled/filter checks.
    NoReviewersMatched,
    /// The concurrency permit pool failed.
    Semaphore(String),
    Provider(ProviderError),
    Discovery(DiscoveryError),
}

/// Errors from parsing provider output into findings.
#[derive(Debug, Clone, PartialEq, Eq)]
pub enum ParserError {
    /// The text could not be decoded as JSON.
    Json(String),
    /// No findings could be recovered from the text.
    NoFindings,
    /// A finding record had an invalid shape.
    InvalidFormat(String),
}

/// Errors from writing reports.
#[derive(Debug, Clone, PartialEq, Eq)]
pub enum OutputError {
    CreateDir(String),
    WriteReport(String),
    Serialize(String),
}

/// Errors from issue creation and deduplication.
#[derive(Debug, Clone, PartialEq, Eq)]
pub enum GitHubError {
    /// The external issue CLI failed.
    GhCli(String),
    /// The CLI's output could not be decoded.
    ParseOutput(String),
    Io(String),
    /// Creating the issue failed.
    CreateFailed(String),
}

/// Errors from the postprocess reduction step.
#[derive(Debug, Clone, PartialEq, Eq)]
pub enum PostprocessError {
    /// The reducer CLI failed.
    CliExecution(String),
    /// The reducer output could not be decoded.
    ParseOutput(String),
    /// The reducer call exceeded its budget, in milliseconds.
    Timeout(u64),
    Io(String),
    Serialize(String),
}

/// Errors from the planning flow.
#[derive(Debug, Clone, PartialEq, Eq)]
pub enum PlannerError {
    /// A perspective's or the reducer's output could not be decoded.
    ParseOutput(String),
    /// The reducer CLI failed.
    CliExecution(String),
    /// No perspective passed the enabled/filter checks.
    NoPerspectivesMatched,
    /// Every perspective failed, so there is nothing to reduce.
    NoFragmentsToReduce,
    /// The concurrency permit pool failed.
    Semaphore(String),
    Provider(ProviderError),
    Io(String),
    Serialize(String),
}

} // verus!
