//! Data model of the planning flow: perspectives, plan fragments, the
//! unified plan, and per-perspective results.

use vstd::prelude::*;

verus! {

/// One configured planning perspective.
#[derive(Debug, Clone)]
pub struct Perspective {
    pub id: String,
    pub name: String,
    pub focus: String,
    pub prompt_file: String,
    pub enabled: bool,
}

/// Severity of a concern or risk.
#[derive(Debug, Clone, Copy, PartialEq, Eq, Structural)]
pub enum Severity {
    Low,
    Medium,
    High,
}

impl Default for Severity {
    /// The default severity.
    fn default() -> (r: Self)
        ensures
            r == Severity::Medium,
    {
        Severity::Medium
    }
}

/// Priority of a unified task.
#[derive(Debug, Clone, Copy, PartialEq, Eq, Structural)]
pub enum TaskPriority {
    Normal,
    High,
    Critical,
}

impl Default for TaskPriority {
    /// The default task priority.
    fn default() -> (r: Self)
        ensures
            r == TaskPriority::Normal,
    {
        TaskPriority::Normal
    }
}

/// Files associated with a task.
#[derive(Debug, Clone)]
pub struct TaskFiles {
    pub target: Vec<String>,
    pub context: Vec<String>,
}

/// One acceptance criterion of a task.
#[derive(Debug, Clone)]
pub struct AcceptanceCriterion {
    pub criterion: String,
    pub verification: String,
}

/// A task suggested by one perspective.
#[derive(Debug, Clone)]
pub struct FragmentTask {
    pub title: String,
    pub rationale: String,
    pub files: TaskFiles,
    pub dependencies: Vec<String>,
    pub acceptance_criteria: Vec<AcceptanceCriterion>,
    pub complexity: Option<String>,
}

/// A concern raised by one perspective.
#[derive(Debug, Clone)]
pub struct Concern {
    pub description: String,
    pub severity: Severity,
    pub affects: Vec<String>,
}

/// A question that needs human input.
#[derive(Debug, Clone)]
pub struct Question {
    pub question: String,
    pub options: Vec<String>,
    pub default: Option<String>,
    pub context: Option<String>,
}

/// One perspective's raw planning output.
#[derive(Debug, Clone)]
pub struct PlanFragment {
    pub perspective: String,
    pub summary: String,
    pub tasks: Vec<FragmentTask>,
    pub concerns: Vec<Concern>,
    pub questions: Vec<Question>,
}

/// A task of the unified plan.
#[derive(Debug, Clone)]
pub struct UnifiedTask {
    pub id: String,
    pub title: String,
    pub description: String,
    pub files: TaskFiles,
    pub depends_on: Vec<String>,
    pub acceptance_criteria: Vec<AcceptanceCriterion>,
    pub perspectives: Vec<String>,
    pub workflow: Option<String>,
    pub priority: TaskPriority,
}

/// A question of the unified plan, with its context.
#[derive(Debug, Clone)]
pub struct UnifiedQuestion {
    pub question: String,
    pub context: String,
    pub raised_by: Vec<String>,
    pub options: Vec<String>,
    pub blocks: Vec<String>,
    pub answer: Option<String>,
}

/// A risk of the unified plan.
#[derive(Debug, Clone)]
pub struct Risk {
    pub description: String,
    pub raised_by: Vec<String>,
    pub severity: Severity,
    pub mitigation: Option<String>,
}

/// A task deferred for later.
#[derive(Debug, Clone)]
pub struct DeferredTask {
    pub title: String,
    pub rationale: String,
}

/// The merged task DAG produced by reduction.
#[derive(Debug, Clone)]
pub struct UnifiedPlan {
    pub tasks: Vec<UnifiedTask>,
    pub questions: Vec<UnifiedQuestion>,
    pub risks: Vec<Risk>,
    pub deferred: Vec<DeferredTask>,
    pub summary: Option<String>,
}

/// Whether two unified questions hold the same content, field by field.
pub open spec fn question_eq(a: UnifiedQuestion, b: UnifiedQuestion) -> bool {
    &&& a.question@ == b.question@
    &&& a.context@ == b.context@
    &&& a.raised_by@ == b.raised_by@
    &&& a.options@ == b.options@
    &&& a.blocks@ == b.blocks@
    &&& match (a.answer, b.answer) {
        (Some(x), Some(y)) => x@ == y@,
        (None, None) => true,
        _ => false,
    }
}

/// Whether two risks hold the same content, field by field.
pub open spec fn risk_eq(a: Risk, b: Risk) -> bool {
    &&& a.description@ == b.description@
    &&& a.raised_by@ == b.raised_by@
    &&& a.severity == b.severity
    &&& match (a.mitigation, b.mitigation) {
        (Some(x), Some(y)) => x@ == y@,
        (None, None) => true,
        _ => false,
    }
}

/// Whether two deferred tasks hold the same content.
pub open spec fn deferred_eq(a: DeferredTask, b: DeferredTask) -> bool {
    a.title@ == b.title@ && a.rationale@ == b.rationale@
}

/// Status of one perspective's execution.
#[derive(Debug, Clone)]
pub enum PerspectiveStatus {
    Completed,
    Failed { error: String },
    Skipped { reason: String },
}

/// Result of one perspective's execution.
#[derive(Debug, Clone)]
pub struct PerspectiveResult {
    pub perspective_id: String,
    pub perspective_name: String,
    pub status: PerspectiveStatus,
    pub fragment: Option<PlanFragment>,
    pub duration_ms: u64,
}

/// Result of running all perspectives.
#[derive(Debug, Clone)]
pub struct PlanningResult {
    pub fragments: Vec<PerspectiveResult>,
    pub total_duration_ms: u64,
}

} // verus!
