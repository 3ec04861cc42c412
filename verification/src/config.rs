//! Configuration model: units, scopes, providers, retry and postprocess
//! settings, with the default values and the validation rule.

use vstd::prelude::*;
use crate::errors::ConfigError;

verus! {

/// Finding priority.
#[derive(Debug, Clone, Copy, PartialEq, Eq, Hash, Structural)]
pub enum Priority {
    P0,
    P1,
    P2,
}

impl Default for Priority {
    /// The default priority.
    fn default() -> (r: Self)
        ensures
            r == Priority::P1,
    {
        Priority::P1
    }
}

impl Priority {
    /// The lower-case label of the priority.
    pub open spec fn spec_label(self) -> Seq<char> {
        match self {
            Priority::P0 => "p0"@,
            Priority::P1 => "p1"@,
            Priority::P2 => "p2"@,
        }
    }

    /// The lower-case label of the priority.
    pub fn label(&self) -> (r: &'static str)
        ensures
            r@ == self.spec_label(),
    {
        match self {
            Priority::P0 => "p0",
            Priority::P1 => "p1",
            Priority::P2 => "p2",
        }
    }
}

/// Which provider CLI a unit runs on.
#[derive(Debug, Clone, Copy, PartialEq, Eq, Structural)]
pub enum Provider {
    ClaudeCli,
    CodexCli,
}

impl Provider {
    /// The configuration label of the provider.
    pub open spec fn spec_label(self) -> Seq<char> {
        match self {
            Provider::ClaudeCli => "claude_cli"@,
            Provider::CodexCli => "codex_cli"@,
        }
    }

    /// The configuration label of the provider.
    pub fn label(&self) -> (r: &'static str)
        ensures
            r@ == self.spec_label(),
    {
        match self {
            Provider::ClaudeCli => "claude_cli",
            Provider::CodexCli => "codex_cli",
        }
    }
}

/// What to do when an issue for a fingerprint already exists.
#[derive(Debug, Clone, Copy, PartialEq, Eq, Structural)]
pub enum DedupeAction {
    Skip,
    Comment,
    Reopen,
}

impl Default for DedupeAction {
    /// The default action: skip duplicates.
    fn default() -> (r: Self)
        ensures
            r == DedupeAction::Skip,
    {
        DedupeAction::Skip
    }
}

/// A named set of paths with include/exclude globs.
#[derive(Debug, Clone)]
pub struct Scope {
    pub paths: Vec<String>,
    pub includes: Vec<String>,
    pub excludes: Vec<String>,
}

/// One configured unit unit.
#[derive(Debug, Clone)]
pub struct Reviewer {
    pub id: String,
    pub name: String,
    pub enabled: bool,
    pub provider: Provider,
    pub scopes: Vec<String>,
    pub prompt_file: String,
    pub priority_default: Priority,
    pub max_files: Option<usize>,
    pub timeout_sec: Option<u64>,
    pub command_override: Option<String>,
}

/// Settings of the external session-id-taking CLI.
#[derive(Debug, Clone)]
pub struct ClaudeCliConfig {
    pub binary: String,
    pub model: String,
    pub tools: Vec<String>,
    pub permission_mode: String,
}

/// Settings of the external stdin-fed CLI.
#[derive(Debug, Clone)]
pub struct CodexCliConfig {
    pub binary: String,
    pub model: String,
}

/// The two provider configurations.
#[derive(Debug, Clone)]
pub struct ProvidersConfig {
    pub claude_cli: ClaudeCliConfig,
    pub codex_cli: CodexCliConfig,
}

/// Bounded-retry settings.
#[derive(Debug, Clone, Copy, PartialEq, Eq, Structural)]
pub struct RetryConfig {
    pub max_attempts: u32,
    pub backoff_base_ms: u64,
}

/// Settings of the findings-reduction step.
#[derive(Debug, Clone)]
pub struct PostProcessConfig {
    pub enabled: bool,
    pub tool: String,
    pub prompt_file: String,
    pub timeout_sec: u64,
    pub min_findings: usize,
}

/// Automatic agent triggering on created issues.
#[derive(Debug, Clone)]
pub struct AutoFixConfig {
    pub enabled: bool,
    pub agent: String,
    pub prompt: String,
}

/// Issue-creation settings.
#[derive(Debug, Clone)]
pub struct GithubConfig {
    pub enabled: bool,
    pub repo: Option<String>,
    pub labels: Vec<String>,
    pub assignees: Vec<String>,
    pub dedupe: bool,
    pub dedupe_action: DedupeAction,
    pub auto_fix: AutoFixConfig,
}

/// Settings of the planning flow.
#[derive(Debug, Clone)]
pub struct PlanningConfig {
    pub perspectives: Vec<crate::planner::types::Perspective>,
    pub reducer_prompt: Option<String>,
    pub require_human_approval: bool,
    pub on_unresolved_questions: String,
}

/// The whole configuration of a run.
#[derive(Debug, Clone)]
pub struct Config {
    pub version: u32,
    pub target: String,
    pub concurrency: usize,
    pub report_dir: String,
    pub dry_run: bool,
    pub diff_base: Option<String>,
    pub github: GithubConfig,
    pub providers: ProvidersConfig,
    pub retry: RetryConfig,
    pub postprocess: PostProcessConfig,
    pub planning: Option<PlanningConfig>,
    pub timeout_sec: u64,
    pub max_files: usize,
    pub launch_delay_ms: u64,
    pub scopes: Vec<(String, Scope)>,
    pub reviewers: Vec<Reviewer>,
}

pub fn default_version() -> (r: u32)
    ensures
        r == 1,
{
    1
}

pub fn default_target() -> (r: String)
    ensures
        r@ == "."@,
{
    String::from_str(".")
}

pub fn default_concurrency() -> (r: usize)
    ensures
        r == 6,
{
    6
}

pub fn default_report_dir() -> (r: String)
    ensures
        r@ == "reports"@,
{
    String::from_str("reports")
}

pub fn default_timeout_sec() -> (r: u64)
    ensures
        r == 300,
{
    300
}

pub fn default_max_files() -> (r: usize)
    ensures
        r == 50,
{
    50
}

pub fn default_launch_delay_ms() -> (r: u64)
    ensures
        r == 500,
{
    500
}

pub fn default_claude_tools() -> (r: Vec<String>)
    ensures
        r@.len() == 3,
        r@[0]@ == "Read"@,
        r@[1]@ == "Grep"@,
        r@[2]@ == "Glob"@,
{
    let mut v: Vec<String> = Vec::new();
    v.push(String::from_str("Read"));
    v.push(String::from_str("Grep"));
    v.push(String::from_str("Glob"));
    v
}

pub fn default_permission_mode() -> (r: String)
    ensures
        r@ == "acceptEdits"@,
{
    String::from_str("acceptEdits")
}

pub fn default_codex_binary() -> (r: String)
    ensures
        r@ == "codex"@,
{
    String::from_str("codex")
}

pub fn default_codex_model() -> (r: String)
    ensures
        r@ == "gpt-4.1"@,
{
    String::from_str("gpt-4.1")
}

pub fn default_max_attempts() -> (r: u32)
    ensures
        r == 3,
{
    3
}

pub fn default_backoff_base_ms() -> (r: u64)
    ensures
        r == 1000,
{
    1000
}

pub fn default_true() -> (r: bool)
    ensures
        r == true,
{
    true
}

pub fn default_false() -> (r: bool)
    ensures
        r == false,
{
    false
}

pub fn default_postprocess_tool() -> (r: String)
    ensures
        r@ == "claude_cli"@,
{
    String::from_str("claude_cli")
}

pub fn default_postprocess_prompt() -> (r: String)
    ensures
        r@ == "prompts/reduce.md"@,
{
    String::from_str("prompts/reduce.md")
}

pub fn default_postprocess_timeout() -> (r: u64)
    ensures
        r == 300,
{
    300
}

pub fn default_postprocess_min_findings() -> (r: usize)
    ensures
        r == 2,
{
    2
}

pub fn default_on_unresolved() -> (r: String)
    ensures
        r@ == "block"@,
{
    String::from_str("block")
}

/// Whether a scope of this name is defined.
pub open spec fn has_scope(scopes: Seq<(String, Scope)>, name: Seq<char>) -> bool {
    exists|i: int| 0 <= i < scopes.len() && scopes[i].0@ == name
}

/// Whether unit `i`'s scope reference `j` names an undefined scope.
pub open spec fn missing_at(c: &Config, i: int, j: int) -> bool {
    0 <= i < c.reviewers.len() && 0 <= j < c.reviewers[i].scopes.len() && !has_scope(
        c.scopes@,
        c.reviewers[i].scopes[j]@,
    )
}

/// Whether every scope that a unit references is defined.
pub open spec fn all_scopes_known(c: &Config) -> bool {
    forall|i: int, j: int| !missing_at(c, i, j)
}

/// Whether some unit is enabled.
pub open spec fn some_reviewer_enabled(c: &Config) -> bool {
    exists|i: int| 0 <= i < c.reviewers.len() && c.reviewers[i].enabled
}

impl Config {
    /// Checks the configuration: every referenced scope must be defined and
    /// at least one unit must be enabled. The unknown-scope error names
    /// the first undefined reference, units in order and each unit's
    /// scope list in order.
    pub fn validate(&self) -> (r: Result<(), ConfigError>)
        ensures
            r is Ok <==> (all_scopes_known(self) && some_reviewer_enabled(self)),
            (match r {
                Err(ConfigError::UnknownScope(_)) => true,
                _ => false,
            }) <==> !all_scopes_known(self),
            match r {
                Err(ConfigError::UnknownScope(n)) => exists|i: int, j: int|
                    missing_at(self, i, j) && n@ == self.reviewers[i].scopes[j]@ && (forall|
                        i2: int,
                        j2: int,
                    |
                        (0 <= i2 < i || (i2 == i && 0 <= j2 < j)) ==> !missing_at(self, i2, j2)),
                Err(ConfigError::NoReviewersEnabled) => all_scopes_known(self)
                    && !some_reviewer_enabled(self),
                Err(_) => false,
                Ok(()) => true,
            },
    {
        let nr = self.reviewers.len();
        let mut i: usize = 0;
        while i < nr
            invariant
                0 <= i <= nr == self.reviewers@.len(),
                forall|i2: int, j2: int| i2 < i ==> !missing_at(self, i2, j2),
            decreases nr - i,
        {
            let ns = self.reviewers[i].scopes.len();
            let mut j: usize = 0;
            while j < ns
                invariant
                    0 <= i < nr == self.reviewers@.len(),
                    0 <= j <= ns == self.reviewers@[i as int].scopes@.len(),
                    forall|i2: int, j2: int| i2 < i ==> !missing_at(self, i2, j2),
                    forall|j2: int| j2 < j ==> !missing_at(self, i as int, j2),
                decreases ns - j,
            {
                let name = &self.reviewers[i].scopes[j];
                if !self.contains_scope(name) {
                    proof {
                        assert(missing_at(self, i as int, j as int));
                    }
                    return Err(ConfigError::UnknownScope(name.clone()));
                }
                j = j + 1;
            }
            i = i + 1;
        }
        proof {
            assert forall|i2: int, j2: int| !missing_at(self, i2, j2) by {
                if 0 <= i2 < self.reviewers@.len() {
                    assert(i2 < i);
                }
            };
        }
        let mut k: usize = 0;
        while k < nr
            invariant
                0 <= k <= nr == self.reviewers@.len(),
                all_scopes_known(self),
                forall|k2: int| 0 <= k2 < k ==> !self.reviewers@[k2].enabled,
            decreases nr - k,
        {
            if self.reviewers[k].enabled {
                proof {
                    assert(some_reviewer_enabled(self));
                }
                return Ok(());
            }
            k = k + 1;
        }
        Err(ConfigError::NoReviewersEnabled)
    }

    /// Whether a scope of this name is defined in the config.
    pub fn contains_scope(&self, name: &String) -> (r: bool)
        ensures
            r == has_scope(self.scopes@, name@),
    {
        let n = self.scopes.len();
        let mut i: usize = 0;
        while i < n
            invariant
                0 <= i <= n == self.scopes@.len(),
                forall|k: int| 0 <= k < i ==> self.scopes@[k].0@ != name@,
            decreases n - i,
        {
            if crate::strutil::str_eq(self.scopes[i].0.as_str(), name.as_str()) {
                return true;
            }
            i = i + 1;
        }
        false
    }
}

} // verus!
