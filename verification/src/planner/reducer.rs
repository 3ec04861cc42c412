//! Decoding the reducer's unified plan, and revising a plan from human
//! answers.
//!
//! Revision output arrives as YAML. The revised task list replaces the
//! original's wholesale, but task identity is preserved: a revised title
//! that matches an original task keeps that task's id (so changed
//! descriptions or criteria never mint new ids), an unmatched title gets
//! a fresh `impl-NNN` id, and dependencies written as titles are resolved
//! through the same title-to-id map, id-shaped ones passing through.

use vstd::prelude::*;
use crate::errors::PlannerError;
use crate::jsonvalue::{json_valid, parse_json_value, value_get, value_as_string, value_as_array};
use crate::decode::{field_string, field_opt_string, field_string_list, field_string_or_empty};
use crate::jsonscan::{
    extract_json, spec_extract_json, lemma_extract_json_valid, find_from, lemma_find_from_bounds,
    find_pat,
};
use crate::strutil::{str_eq, string_of, chars_of, string_chars};
use crate::text::{
    trim_ws, trim_chars, matches_at, matches_at_exec, dec_digits, u64_to_chars, dec_digits_pad3,
    u64_to_chars_pad3, extend_chars, subrange_vec,
};
use crate::discovery::clone_strings;
use crate::planner::types::{
    UnifiedPlan, UnifiedTask, UnifiedQuestion, Risk, DeferredTask, TaskFiles, AcceptanceCriterion,
    TaskPriority, Severity, question_eq, risk_eq, deferred_eq,
};
use crate::planner::parser::severity_of_label;

verus! {

/// The reduction step's bookkeeping.
#[derive(Debug, Clone)]
pub struct ReductionResult {
    pub plan: UnifiedPlan,
    pub fragment_count: usize,
    pub task_count_before: usize,
    pub task_count_after: usize,
}

/// The total number of tasks the fragments suggested.
pub open spec fn sum_task_counts(fragments: Seq<crate::planner::types::PlanFragment>) -> int
    decreases fragments.len(),
{
    if fragments.len() == 0 {
        0
    } else {
        sum_task_counts(fragments.drop_last()) + fragments.last().tasks@.len()
    }
}

proof fn lemma_sum_task_counts_nonneg(fragments: Seq<crate::planner::types::PlanFragment>)
    ensures
        sum_task_counts(fragments) >= 0,
    decreases fragments.len(),
{
    if fragments.len() > 0 {
        lemma_sum_task_counts_nonneg(fragments.drop_last());
    }
}

/// Builds the reduction bookkeeping from the merged plan and the
/// fragments it was reduced from; the suggested-task total is exact
/// whenever it fits the machine limit.
pub fn reduction_result(
    plan: UnifiedPlan,
    fragments: &Vec<crate::planner::types::PlanFragment>,
) -> (r: ReductionResult)
    ensures
        r.plan == plan,
        r.fragment_count == fragments@.len(),
        sum_task_counts(fragments@) <= usize::MAX ==> r.task_count_before as int
            == sum_task_counts(fragments@),
        r.task_count_after == plan.tasks@.len(),
{
    let n = fragments.len();
    let mut before: usize = 0;
    let mut saturated = false;
    let mut i: usize = 0;
    proof {
        assert(fragments@.take(0) =~= Seq::<crate::planner::types::PlanFragment>::empty());
    }
    while i < n
        invariant
            0 <= i <= n == fragments@.len(),
            !saturated ==> before as int == sum_task_counts(fragments@.take(i as int)),
            saturated ==> sum_task_counts(fragments@.take(i as int)) > usize::MAX,
        decreases n - i,
    {
        proof {
            assert(fragments@.take(i + 1).drop_last() =~= fragments@.take(i as int));
            assert(fragments@.take(i + 1).last() == fragments@[i as int]);
        }
        let c = fragments[i].tasks.len();
        if !saturated {
            if before <= usize::MAX - c {
                before = before + c;
            } else {
                saturated = true;
            }
        }
        i = i + 1;
    }
    proof {
        assert(fragments@.take(n as int) =~= fragments@);
    }
    let task_count_after = plan.tasks.len();
    ReductionResult { plan, fragment_count: n, task_count_before: before, task_count_after }
}

/// One task of the YAML revision output.
#[derive(Debug, Clone)]
pub struct RevisedTask {
    pub title: String,
    pub description: String,
    pub acceptance_criteria: Vec<String>,
    pub files: Vec<String>,
    pub depends_on: Vec<String>,
}

/// Whether the outside YAML parser accepts the text as one YAML document.
pub uninterp spec fn yaml_valid(s: Seq<char>) -> bool;

/// Relies on `serde_yaml::from_str::<serde_yaml::Value>`: it succeeds
/// exactly on parseable YAML text, a property of the text alone.
#[verifier::external_body]
fn yaml_text_ok(s: &str) -> (r: bool)
    ensures
        r == yaml_valid(s@),
{
    serde_yaml::from_str::<serde_yaml::Value>(s).is_ok()
}

/// Whether the outside YAML parser can read the text into the JSON data
/// model.
pub uninterp spec fn yaml_json_ok(s: Seq<char>) -> bool;

/// Relies on `serde_yaml::from_str::<serde_json::Value>`: it succeeds
/// exactly when the YAML maps into the JSON data model, a property of the
/// text alone.
#[verifier::external_body]
fn parse_yaml_as_json(s: &str) -> (r: Option<serde_json::Value>)
    ensures
        r is Some <==> yaml_json_ok(s@),
{
    serde_yaml::from_str::<serde_json::Value>(s).ok()
}

/// The task priority for its JSON label: exactly `normal`, `high` or
/// `critical`.
pub fn task_priority_of_label(s: &str) -> (r: Option<TaskPriority>)
    ensures
        r == (if s@ == "normal"@ {
            Some(TaskPriority::Normal)
        } else if s@ == "high"@ {
            Some(TaskPriority::High)
        } else if s@ == "critical"@ {
            Some(TaskPriority::Critical)
        } else {
            None::<TaskPriority>
        }),
{
    if str_eq(s, "normal") {
        Some(TaskPriority::Normal)
    } else if str_eq(s, "high") {
        Some(TaskPriority::High)
    } else if str_eq(s, "critical") {
        Some(TaskPriority::Critical)
    } else {
        None
    }
}

/// Decodes one unified task: `id` and `title` are required.
fn decode_unified_task(v: &serde_json::Value) -> (r: Option<UnifiedTask>) {
    let id = match field_string(v, "id") {
        Some(s) => s,
        None => {
            return None;
        },
    };
    let title = match field_string(v, "title") {
        Some(s) => s,
        None => {
            return None;
        },
    };
    let description = match field_string_or_empty(v, "description") {
        Some(s) => s,
        None => {
            return None;
        },
    };
    let files = match value_get(v, "files") {
        None => TaskFiles { target: Vec::new(), context: Vec::new() },
        Some(inner) => {
            let target = match field_string_list(inner, "target") {
                Some(l) => l,
                None => {
                    return None;
                },
            };
            let context = match field_string_list(inner, "context") {
                Some(l) => l,
                None => {
                    return None;
                },
            };
            TaskFiles { target, context }
        },
    };
    let depends_on = match field_string_list(v, "depends_on") {
        Some(l) => l,
        None => {
            return None;
        },
    };
    let acceptance_criteria = match value_get(v, "acceptance_criteria") {
        None => Vec::new(),
        Some(inner) => {
            let arr = match value_as_array(inner) {
                Some(a) => a,
                None => {
                    return None;
                },
            };
            let n = arr.len();
            let mut out: Vec<AcceptanceCriterion> = Vec::new();
            let mut i: usize = 0;
            let mut failed = false;
            while i < n && !failed
                invariant
                    0 <= i <= n == arr@.len(),
                decreases n - i,
            {
                let criterion = match field_string(&arr[i], "criterion") {
                    Some(s) => Some(s),
                    None => None,
                };
                match criterion {
                    Some(c) => {
                        let verification = match field_string_or_empty(&arr[i], "verification") {
                            Some(s) => s,
                            None => String::new(),
                        };
                        out.push(AcceptanceCriterion { criterion: c, verification });
                    },
                    None => {
                        failed = true;
                    },
                }
                i = i + 1;
            }
            if failed {
                return None;
            }
            out
        },
    };
    let perspectives = match field_string_list(v, "perspectives") {
        Some(l) => l,
        None => {
            return None;
        },
    };
    let workflow = match field_opt_string(v, "workflow") {
        Some(w) => w,
        None => {
            return None;
        },
    };
    let priority = match value_get(v, "priority") {
        None => TaskPriority::Normal,
        Some(inner) => {
            let label = match value_as_string(inner) {
                Some(s) => s,
                None => {
                    return None;
                },
            };
            match task_priority_of_label(label.as_str()) {
                Some(p) => p,
                None => {
                    return None;
                },
            }
        },
    };
    Some(
        UnifiedTask {
            id,
            title,
            description,
            files,
            depends_on,
            acceptance_criteria,
            perspectives,
            workflow,
            priority,
        },
    )
}

/// Decodes one unified question: `question` is required.
fn decode_unified_question(v: &serde_json::Value) -> (r: Option<UnifiedQuestion>) {
    let question = match field_string(v, "question") {
        Some(s) => s,
        None => {
            return None;
        },
    };
    let context = match field_string_or_empty(v, "context") {
        Some(s) => s,
        None => {
            return None;
        },
    };
    let raised_by = match field_string_list(v, "raised_by") {
        Some(l) => l,
        None => {
            return None;
        },
    };
    let options = match field_string_list(v, "options") {
        Some(l) => l,
        None => {
            return None;
        },
    };
    let blocks = match field_string_list(v, "blocks") {
        Some(l) => l,
        None => {
            return None;
        },
    };
    let answer = match field_opt_string(v, "answer") {
        Some(a) => a,
        None => {
            return None;
        },
    };
    Some(UnifiedQuestion { question, context, raised_by, options, blocks, answer })
}

/// Decodes one risk: `description` is required.
fn decode_risk(v: &serde_json::Value) -> (r: Option<Risk>) {
    let description = match field_string(v, "description") {
        Some(s) => s,
        None => {
            return None;
        },
    };
    let raised_by = match field_string_list(v, "raised_by") {
        Some(l) => l,
        None => {
            return None;
        },
    };
    let severity = match value_get(v, "severity") {
        None => Severity::Medium,
        Some(inner) => {
            let label = match value_as_string(inner) {
                Some(s) => s,
                None => {
                    return None;
                },
            };
            match severity_of_label(label.as_str()) {
                Some(sv) => sv,
                None => {
                    return None;
                },
            }
        },
    };
    let mitigation = match field_opt_string(v, "mitigation") {
        Some(m) => m,
        None => {
            return None;
        },
    };
    Some(Risk { description, raised_by, severity, mitigation })
}

/// Decodes one deferred task: `title` is required.
fn decode_deferred(v: &serde_json::Value) -> (r: Option<DeferredTask>) {
    let title = match field_string(v, "title") {
        Some(s) => s,
        None => {
            return None;
        },
    };
    let rationale = match field_string_or_empty(v, "rationale") {
        Some(s) => s,
        None => {
            return None;
        },
    };
    Some(DeferredTask { title, rationale })
}

/// Decodes a list of unified tasks strictly.
fn decode_unified_tasks(v: &serde_json::Value) -> (r: Option<Vec<UnifiedTask>>) {
    let arr = match value_as_array(v) {
        Some(a) => a,
        None => {
            return None;
        },
    };
    let n = arr.len();
    let mut out: Vec<UnifiedTask> = Vec::new();
    let mut i: usize = 0;
    while i < n
        invariant
            0 <= i <= n == arr@.len(),
        decreases n - i,
    {
        match decode_unified_task(&arr[i]) {
            Some(t) => out.push(t),
            None => {
                return None;
            },
        }
        i = i + 1;
    }
    Some(out)
}

/// Decodes a list of questions strictly.
fn decode_unified_questions(v: &serde_json::Value) -> (r: Option<Vec<UnifiedQuestion>>) {
    let arr = match value_as_array(v) {
        Some(a) => a,
        None => {
            return None;
        },
    };
    let n = arr.len();
    let mut out: Vec<UnifiedQuestion> = Vec::new();
    let mut i: usize = 0;
    while i < n
        invariant
            0 <= i <= n == arr@.len(),
        decreases n - i,
    {
        match decode_unified_question(&arr[i]) {
            Some(q) => out.push(q),
            None => {
                return None;
            },
        }
        i = i + 1;
    }
    Some(out)
}

/// Decodes a list of risks strictly.
fn decode_risks(v: &serde_json::Value) -> (r: Option<Vec<Risk>>) {
    let arr = match value_as_array(v) {
        Some(a) => a,
        None => {
            return None;
        },
    };
    let n = arr.len();
    let mut out: Vec<Risk> = Vec::new();
    let mut i: usize = 0;
    while i < n
        invariant
            0 <= i <= n == arr@.len(),
        decreases n - i,
    {
        match decode_risk(&arr[i]) {
            Some(x) => out.push(x),
            None => {
                return None;
            },
        }
        i = i + 1;
    }
    Some(out)
}

/// Decodes a list of deferred tasks strictly.
fn decode_deferred_list(v: &serde_json::Value) -> (r: Option<Vec<DeferredTask>>) {
    let arr = match value_as_array(v) {
        Some(a) => a,
        None => {
            return None;
        },
    };
    let n = arr.len();
    let mut out: Vec<DeferredTask> = Vec::new();
    let mut i: usize = 0;
    while i < n
        invariant
            0 <= i <= n == arr@.len(),
        decreases n - i,
    {
        match decode_deferred(&arr[i]) {
            Some(x) => out.push(x),
            None => {
                return None;
            },
        }
        i = i + 1;
    }
    Some(out)
}

/// The canonical plan shape: `tasks` is required, the other lists
/// default; `questions_for_human` is accepted as a synonym of
/// `questions`.
fn decode_plan_canonical(v: &serde_json::Value) -> (r: Option<UnifiedPlan>) {
    let tasks = match value_get(v, "tasks") {
        Some(inner) => match decode_unified_tasks(inner) {
            Some(l) => l,
            None => {
                return None;
            },
        },
        None => {
            return None;
        },
    };
    let questions_val = match value_get(v, "questions") {
        Some(inner) => Some(inner),
        None => value_get(v, "questions_for_human"),
    };
    let questions = match questions_val {
        None => Vec::new(),
        Some(inner) => match decode_unified_questions(inner) {
            Some(l) => l,
            None => {
                return None;
            },
        },
    };
    let risks = match value_get(v, "risks") {
        None => Vec::new(),
        Some(inner) => match decode_risks(inner) {
            Some(l) => l,
            None => {
                return None;
            },
        },
    };
    let deferred = match value_get(v, "deferred") {
        None => Vec::new(),
        Some(inner) => match decode_deferred_list(inner) {
            Some(l) => l,
            None => {
                return None;
            },
        },
    };
    let summary = match field_opt_string(v, "summary") {
        Some(s) => s,
        None => {
            return None;
        },
    };
    Some(UnifiedPlan { tasks, questions, risks, deferred, summary })
}

/// The flexible shape: each list is taken strictly or falls back to
/// empty; `questions_for_human` is accepted for `questions`.
fn decode_plan_flexible(v: &serde_json::Value) -> (r: UnifiedPlan) {
    let tasks = match value_get(v, "tasks") {
        None => Vec::new(),
        Some(inner) => match decode_unified_tasks(inner) {
            Some(l) => l,
            None => Vec::new(),
        },
    };
    let questions_val = match value_get(v, "questions") {
        Some(inner) => Some(inner),
        None => value_get(v, "questions_for_human"),
    };
    let questions = match questions_val {
        None => Vec::new(),
        Some(inner) => match decode_unified_questions(inner) {
            Some(l) => l,
            None => Vec::new(),
        },
    };
    let risks = match value_get(v, "risks") {
        None => Vec::new(),
        Some(inner) => match decode_risks(inner) {
            Some(l) => l,
            None => Vec::new(),
        },
    };
    let deferred = match value_get(v, "deferred") {
        None => Vec::new(),
        Some(inner) => match decode_deferred_list(inner) {
            Some(l) => l,
            None => Vec::new(),
        },
    };
    let summary = match field_opt_string(v, "summary") {
        Some(s) => s,
        None => None,
    };
    UnifiedPlan { tasks, questions, risks, deferred, summary }
}

/// Locates JSON in the text and decodes it as a unified plan, canonical
/// shape first, flexible shape second: a plan comes out exactly when a
/// JSON span extracts, because the flexible shape never refuses.
pub fn try_parse_plan(s: &str) -> (r: Option<UnifiedPlan>)
    ensures
        spec_extract_json(s@, true) is Some ==> r is Some,
        spec_extract_json(s@, true) is None ==> r is None,
{
    let json_str = match extract_json(s, true) {
        Some(j) => j,
        None => {
            return None;
        },
    };
    proof {
        lemma_extract_json_valid(s@, true);
    }
    let value = match parse_json_value(json_str.as_str()) {
        Some(v) => v,
        None => {
            proof {
                assert(false);
            }
            return None;
        },
    };
    match decode_plan_canonical(&value) {
        Some(p) => {
            return Some(p);
        },
        None => {},
    }
    Some(decode_plan_flexible(&value))
}

/// Parses the reducer's raw output into a unified plan: the envelope form
/// first, then the text itself. Success is owed whenever a JSON span
/// extracts from the text itself; text that is not JSON and holds no
/// extractable span is owed the error.
pub fn parse_unified_plan(raw: &str) -> (r: Result<UnifiedPlan, PlannerError>)
    ensures
        spec_extract_json(raw@, true) is Some ==> r is Ok,
        (!json_valid(raw@) && spec_extract_json(raw@, true) is None) ==> r is Err,
{
    match parse_json_value(raw) {
        Some(envelope) => {
            match value_get(&envelope, "result") {
                Some(result_val) => match value_as_string(result_val) {
                    Some(inner) => match try_parse_plan(inner.as_str()) {
                        Some(plan) => {
                            return Ok(plan);
                        },
                        None => {},
                    },
                    None => {},
                },
                None => {},
            }
        },
        None => {},
    }
    match try_parse_plan(raw) {
        Some(plan) => {
            return Ok(plan);
        },
        None => {},
    }
    Err(
        PlannerError::ParseOutput(
            string_of(&chars_of("Could not parse unified plan from reducer output")),
        ),
    )
}

/// The fence language tag for YAML blocks.
pub open spec fn yaml_tag_seq() -> Seq<char> {
    seq!['y', 'a', 'm', 'l']
}

/// The `tasks:` key marker used by the last extraction stage.
pub open spec fn tasks_key_seq() -> Seq<char> {
    seq!['t', 'a', 's', 'k', 's', ':']
}

/// The trimmed content of the first fenced block of `s`, with a literal
/// `yaml` tag stripped.
pub open spec fn yaml_fence_block(s: Seq<char>) -> Option<Seq<char>> {
    match find_from(s, 0, crate::jsonscan::fence_seq()) {
        None => None,
        Some(i) => {
            let start = if matches_at(s, i + 3, yaml_tag_seq()) {
                i + 7
            } else {
                i + 3
            };
            match find_from(s, start, crate::jsonscan::fence_seq()) {
                None => None,
                Some(j) => Some(trim_ws(s.subrange(start, j))),
            }
        },
    }
}

/// Where revision YAML is found in (envelope-unwrapped) output: the first
/// fenced block if its content parses as YAML, else the whole trimmed
/// text if it parses, else the suffix from the first `tasks:` onward if
/// that parses.
pub open spec fn spec_extract_yaml(c: Seq<char>) -> Option<Seq<char>> {
    let t = trim_ws(c);
    match yaml_fence_block(t) {
        Some(b) => {
            if yaml_valid(b) {
                Some(b)
            } else {
                spec_extract_yaml_rest(t)
            }
        },
        None => spec_extract_yaml_rest(t),
    }
}

/// The whole-text and `tasks:`-suffix stages.
pub open spec fn spec_extract_yaml_rest(t: Seq<char>) -> Option<Seq<char>> {
    if yaml_valid(t) {
        Some(t)
    } else {
        match find_from(t, 0, tasks_key_seq()) {
            None => None,
            Some(i) => {
                if yaml_valid(t.skip(i)) {
                    Some(t.skip(i))
                } else {
                    None
                }
            },
        }
    }
}

/// Extracts the revision YAML from envelope-unwrapped text, per the
/// three-stage cascade.
pub fn extract_yaml_text(content: &str) -> (r: Option<String>)
    ensures
        match r {
            Some(v) => spec_extract_yaml(content@) == Some(v@),
            None => spec_extract_yaml(content@) is None,
        },
{
    let chars = chars_of(content);
    let t = trim_chars(&chars);
    let mut fence: Vec<char> = Vec::new();
    fence.push('`');
    fence.push('`');
    fence.push('`');
    let mut tag: Vec<char> = Vec::new();
    tag.push('y');
    tag.push('a');
    tag.push('m');
    tag.push('l');
    proof {
        assert(fence@ =~= crate::jsonscan::fence_seq());
        assert(tag@ =~= yaml_tag_seq());
    }
    let tn = t.len();
    match find_pat(&t, 0, &fence) {
        None => {},
        Some(i) => {
            proof {
                lemma_find_from_bounds(t@, 0, fence@);
                assert(i + 3 <= tn);
            }
            let tagged = matches_at_exec(&t, i + 3, &tag);
            let start = if tagged {
                proof {
                    assert(i + 3 + tag@.len() <= tn);
                }
                i + 7
            } else {
                i + 3
            };
            match find_pat(&t, start, &fence) {
                None => {},
                Some(j) => {
                    proof {
                        lemma_find_from_bounds(t@, start as int, fence@);
                    }
                    let raw_block = subrange_vec(&t, start, j);
                    let block = trim_chars(&raw_block);
                    let block_str = string_of(&block);
                    if yaml_text_ok(block_str.as_str()) {
                        return Some(block_str);
                    }
                },
            }
        },
    }
    let t_str = string_of(&t);
    if yaml_text_ok(t_str.as_str()) {
        return Some(t_str);
    }
    let mut tasks_key: Vec<char> = Vec::new();
    tasks_key.push('t');
    tasks_key.push('a');
    tasks_key.push('s');
    tasks_key.push('k');
    tasks_key.push('s');
    tasks_key.push(':');
    proof {
        assert(tasks_key@ =~= tasks_key_seq());
    }
    match find_pat(&t, 0, &tasks_key) {
        None => None,
        Some(i) => {
            proof {
                lemma_find_from_bounds(t@, 0, tasks_key@);
            }
            let suffix = subrange_vec(&t, i, t.len());
            proof {
                assert(suffix@ =~= t@.skip(i as int));
            }
            let suffix_str = string_of(&suffix);
            if yaml_text_ok(suffix_str.as_str()) {
                Some(suffix_str)
            } else {
                None
            }
        },
    }
}

/// Extracts the revision YAML from raw output, unwrapping the envelope
/// form first.
pub fn extract_yaml(raw: &str) -> (r: Result<String, PlannerError>) {
    let content: String = match parse_json_value(raw) {
        Some(envelope) => {
            match value_get(&envelope, "result") {
                Some(result_val) => match value_as_string(result_val) {
                    Some(inner) => inner,
                    None => string_of(&chars_of(raw)),
                },
                None => string_of(&chars_of(raw)),
            }
        },
        None => string_of(&chars_of(raw)),
    };
    match extract_yaml_text(content.as_str()) {
        Some(y) => Ok(y),
        None => Err(
            PlannerError::ParseOutput(
                string_of(&chars_of("Could not extract YAML from revision output")),
            ),
        ),
    }
}

/// Decodes one revised task from the YAML (as JSON data): `title` is
/// required, the rest defaults.
fn decode_revised_task(v: &serde_json::Value) -> (r: Option<RevisedTask>) {
    let title = match field_string(v, "title") {
        Some(s) => s,
        None => {
            return None;
        },
    };
    let description = match field_string_or_empty(v, "description") {
        Some(s) => s,
        None => {
            return None;
        },
    };
    let acceptance_criteria = match field_string_list(v, "acceptance_criteria") {
        Some(l) => l,
        None => {
            return None;
        },
    };
    let files = match field_string_list(v, "files") {
        Some(l) => l,
        None => {
            return None;
        },
    };
    let depends_on = match field_string_list(v, "depends_on") {
        Some(l) => l,
        None => {
            return None;
        },
    };
    Some(RevisedTask { title, description, acceptance_criteria, files, depends_on })
}

/// Decodes the revision output: a required strict `tasks` list and an
/// optional summary.
fn decode_revision(v: &serde_json::Value) -> (r: Option<(Vec<RevisedTask>, Option<String>)>) {
    let tasks_val = match value_get(v, "tasks") {
        Some(inner) => inner,
        None => {
            return None;
        },
    };
    let arr = match value_as_array(tasks_val) {
        Some(a) => a,
        None => {
            return None;
        },
    };
    let n = arr.len();
    let mut tasks: Vec<RevisedTask> = Vec::new();
    let mut i: usize = 0;
    while i < n
        invariant
            0 <= i <= n == arr@.len(),
        decreases n - i,
    {
        match decode_revised_task(&arr[i]) {
            Some(t) => tasks.push(t),
            None => {
                return None;
            },
        }
        i = i + 1;
    }
    let summary = match field_opt_string(v, "revision_summary") {
        Some(s) => s,
        None => None,
    };
    Some((tasks, summary))
}

/// The index of the first original task with this title, or the list's
/// length when none matches.
pub open spec fn first_title_idx(orig: Seq<UnifiedTask>, title: Seq<char>) -> int
    decreases orig.len(),
{
    if orig.len() == 0 {
        0
    } else if orig[0].title@ == title {
        0
    } else {
        1 + first_title_idx(orig.drop_first(), title)
    }
}

proof fn lemma_first_title_idx(orig: Seq<UnifiedTask>, title: Seq<char>)
    ensures
        0 <= first_title_idx(orig, title) <= orig.len(),
        forall|k: int| 0 <= k < first_title_idx(orig, title) ==> orig[k].title@ != title,
        first_title_idx(orig, title) < orig.len() ==> orig[first_title_idx(orig, title)].title@
            == title,
    decreases orig.len(),
{
    if orig.len() > 0 && orig[0].title@ != title {
        lemma_first_title_idx(orig.drop_first(), title);
        assert forall|k: int| 0 <= k < first_title_idx(orig, title) implies orig[k].title@
            != title by {
            if k >= 1 {
                assert(orig.drop_first()[k - 1] == orig[k]);
            }
        };
        if first_title_idx(orig, title) < orig.len() {
            assert(orig.drop_first()[first_title_idx(orig.drop_first(), title)] == orig[
                first_title_idx(orig, title)]);
        }
    }
}

/// The freshly minted id for an unmatched revised task at 0-based
/// position `i`: `impl-` and the 1-based position, three digits wide.
pub open spec fn minted_id(i: int) -> Seq<char> {
    seq!['i', 'm', 'p', 'l', '-'] + dec_digits_pad3(i + 1)
}

/// The id a revised task keeps or gets: the first original task with the
/// same title wins; otherwise a fresh id is minted from the position.
pub open spec fn revised_id(orig: Seq<UnifiedTask>, title: Seq<char>, i: int) -> Seq<char> {
    let fm = first_title_idx(orig, title);
    if fm < orig.len() {
        orig[fm].id@
    } else {
        minted_id(i)
    }
}

/// The index of the last revised task with this title, if any: the
/// title-to-id map is filled in order, so a later duplicate wins.
pub open spec fn last_title_idx(revised: Seq<RevisedTask>, title: Seq<char>) -> Option<int>
    decreases revised.len(),
{
    if revised.len() == 0 {
        None
    } else if revised.last().title@ == title {
        Some(revised.len() - 1)
    } else {
        last_title_idx(revised.drop_last(), title)
    }
}

proof fn lemma_last_title_idx(revised: Seq<RevisedTask>, title: Seq<char>)
    ensures
        match last_title_idx(revised, title) {
            Some(k) => 0 <= k < revised.len() && revised[k].title@ == title && (forall|m: int|
                k < m < revised.len() ==> revised[m].title@ != title),
            None => forall|m: int| 0 <= m < revised.len() ==> revised[m].title@ != title,
        },
    decreases revised.len(),
{
    if revised.len() > 0 && revised.last().title@ != title {
        lemma_last_title_idx(revised.drop_last(), title);
        match last_title_idx(revised.drop_last(), title) {
            Some(k) => {
                assert(revised.drop_last()[k] == revised[k]);
                assert forall|m: int| k < m < revised.len() implies revised[m].title@ != title by {
                    if m < revised.len() - 1 {
                        assert(revised.drop_last()[m] == revised[m]);
                    }
                };
            },
            None => {
                assert forall|m: int| 0 <= m < revised.len() implies revised[m].title@
                    != title by {
                    if m < revised.len() - 1 {
                        assert(revised.drop_last()[m] == revised[m]);
                    }
                };
            },
        }
    }
}

/// Whether a dependency string is already id-shaped: it starts `impl-`.
pub open spec fn dep_is_idlike(dep: Seq<char>) -> bool {
    matches_at(dep, 0, seq!['i', 'm', 'p', 'l', '-'])
}

/// How one dependency reference resolves: id-shaped strings pass through
/// verbatim; a title known to the map resolves to that task's id; an
/// unknown string passes through (a possibly dangling reference, kept as
/// written).
pub open spec fn resolved_dep(
    revised: Seq<RevisedTask>,
    orig: Seq<UnifiedTask>,
    dep: Seq<char>,
) -> Seq<char> {
    if dep_is_idlike(dep) {
        dep
    } else {
        match last_title_idx(revised, dep) {
            Some(k) => revised_id(orig, revised[k].title@, k),
            None => dep,
        }
    }
}

/// Whether `out` is the merge of revised task `i` against the originals.
pub open spec fn merged_task_ok(
    out: UnifiedTask,
    revised: Seq<RevisedTask>,
    orig: Seq<UnifiedTask>,
    i: int,
) -> bool {
    let rt = revised[i];
    let fm = first_title_idx(orig, rt.title@);
    &&& out.id@ == revised_id(orig, rt.title@, i)
    &&& out.title@ == rt.title@
    &&& out.description@ == rt.description@
    &&& out.files.target@.len() == rt.files@.len()
    &&& forall|d: int| 0 <= d < rt.files@.len() ==> out.files.target@[d]@ == rt.files@[d]@
    &&& out.files.context@ == (if fm < orig.len() {
        orig[fm].files.context@
    } else {
        Seq::<String>::empty()
    })
    &&& out.depends_on@.len() == rt.depends_on@.len()
    &&& forall|d: int|
        0 <= d < rt.depends_on@.len() ==> out.depends_on@[d]@ == resolved_dep(
            revised,
            orig,
            rt.depends_on@[d]@,
        )
    &&& out.acceptance_criteria@.len() == rt.acceptance_criteria@.len()
    &&& forall|d: int|
        0 <= d < rt.acceptance_criteria@.len() ==> out.acceptance_criteria@[d].criterion@
            == rt.acceptance_criteria@[d]@ && out.acceptance_criteria@[d].verification@.len() == 0
    &&& out.perspectives@ == (if fm < orig.len() {
        orig[fm].perspectives@
    } else {
        Seq::<String>::empty()
    })
    &&& out.workflow == (if fm < orig.len() {
        orig[fm].workflow
    } else {
        None::<String>
    })
    &&& out.priority == (if fm < orig.len() {
        orig[fm].priority
    } else {
        TaskPriority::Normal
    })
}

/// Whether `out` is, index for index, the merge of the revised task list
/// `rev` against the originals.
pub open spec fn tasks_merged(
    out: Seq<UnifiedTask>,
    rev: Seq<RevisedTask>,
    orig: Seq<UnifiedTask>,
) -> bool {
    out.len() == rev.len() && (forall|i: int|
        0 <= i < out.len() ==> merged_task_ok(out[i], rev, orig, i))
}

/// Finds the first original task with this title.
fn first_title_match(orig: &Vec<UnifiedTask>, title: &String) -> (r: Option<usize>)
    ensures
        match r {
            Some(j) => j as int == first_title_idx(orig@, title@) && (j as int) < orig@.len(),
            None => first_title_idx(orig@, title@) == orig@.len(),
        },
{
    proof {
        lemma_first_title_idx(orig@, title@);
    }
    let n = orig.len();
    let mut j: usize = 0;
    while j < n
        invariant
            0 <= j <= n == orig@.len(),
            forall|k: int| 0 <= k < j ==> orig@[k].title@ != title@,
        decreases n - j,
    {
        if str_eq(orig[j].title.as_str(), title.as_str()) {
            proof {
                lemma_first_title_idx_at(orig@, title@, j as int);
            }
            return Some(j);
        }
        j = j + 1;
    }
    proof {
        lemma_first_title_idx_at(orig@, title@, n as int);
    }
    None
}

proof fn lemma_first_title_idx_at(orig: Seq<UnifiedTask>, title: Seq<char>, j: int)
    requires
        0 <= j <= orig.len(),
        forall|k: int| 0 <= k < j ==> orig[k].title@ != title,
        j < orig.len() ==> orig[j].title@ == title,
    ensures
        first_title_idx(orig, title) == j,
    decreases orig.len(),
{
    if orig.len() == 0 || orig[0].title@ == title {
    } else {
        assert forall|k: int| 0 <= k < j - 1 implies orig.drop_first()[k].title@ != title by {
            assert(orig.drop_first()[k] == orig[k + 1]);
        };
        if j - 1 < orig.drop_first().len() {
            assert(orig.drop_first()[j - 1] == orig[j]);
        }
        lemma_first_title_idx_at(orig.drop_first(), title, j - 1);
    }
}

/// Finds the last revised task with this title.
fn last_title_match(revised: &Vec<RevisedTask>, title: &String) -> (r: Option<usize>)
    ensures
        match r {
            Some(k) => last_title_idx(revised@, title@) == Some(k as int),
            None => last_title_idx(revised@, title@) is None,
        },
{
    proof {
        lemma_last_title_idx(revised@, title@);
    }
    let n = revised.len();
    let mut j: usize = n;
    while j > 0
        invariant
            0 <= j <= n == revised@.len(),
            forall|m: int| j <= m < n ==> revised@[m].title@ != title@,
        decreases j,
    {
        j = j - 1;
        if str_eq(revised[j].title.as_str(), title.as_str()) {
            proof {
                lemma_last_title_idx(revised@, title@);
                match last_title_idx(revised@, title@) {
                    Some(k) => {
                        if k < j {
                            assert(revised@[j as int].title@ != title@);
                        }
                        if k > j {
                            assert(revised@[k].title@ != title@);
                        }
                    },
                    None => {
                        assert(revised@[j as int].title@ != title@);
                    },
                }
            }
            return Some(j);
        }
    }
    proof {
        lemma_last_title_idx(revised@, title@);
        match last_title_idx(revised@, title@) {
            Some(k) => {
                assert(revised@[k].title@ != title@);
            },
            None => {},
        }
    }
    None
}

/// Whether the string starts with `impl-`.
fn is_idlike(dep: &String) -> (r: bool)
    ensures
        r == dep_is_idlike(dep@),
{
    let chars = string_chars(dep);
    let mut pat: Vec<char> = Vec::new();
    pat.push('i');
    pat.push('m');
    pat.push('p');
    pat.push('l');
    pat.push('-');
    proof {
        assert(pat@ =~= seq!['i', 'm', 'p', 'l', '-']);
    }
    matches_at_exec(&chars, 0, &pat)
}

/// The id for revised task `i`: kept from the first original task with
/// the same title, or freshly minted from the position.
fn id_for(orig: &Vec<UnifiedTask>, title: &String, i: usize) -> (r: String)
    requires
        i < usize::MAX,
    ensures
        r@ == revised_id(orig@, title@, i as int),
{
    match first_title_match(orig, title) {
        Some(j) => orig[j].id.clone(),
        None => {
            let mut id_chars = chars_of("impl-");
            proof {
                reveal_strlit("impl-");
                assert(id_chars@ =~= seq!['i', 'm', 'p', 'l', '-']);
            }
            let digits = u64_to_chars_pad3((i + 1) as u64);
            extend_chars(&mut id_chars, &digits);
            proof {
                assert(id_chars@ =~= minted_id(i as int));
            }
            string_of(&id_chars)
        },
    }
}

/// Merges a revised task list against the original tasks: titles keep
/// their original ids, unmatched titles mint fresh ones, and title-form
/// dependencies resolve through the same map.
#[verifier::rlimit(60)]
pub fn merge_revised_tasks(revised: &Vec<RevisedTask>, orig: &Vec<UnifiedTask>) -> (r: Vec<
    UnifiedTask,
>)
    ensures
        r@.len() == revised@.len(),
        forall|i: int| 0 <= i < r@.len() ==> merged_task_ok(r@[i], revised@, orig@, i),
{
    let n = revised.len();
    let mut out: Vec<UnifiedTask> = Vec::new();
    let mut i: usize = 0;
    while i < n
        invariant
            0 <= i <= n == revised@.len(),
            out@.len() == i,
            forall|k: int| 0 <= k < i ==> merged_task_ok(out@[k], revised@, orig@, k),
        decreases n - i,
    {
        let rt = &revised[i];
        let id = id_for(orig, &rt.title, i);
        let first_match = first_title_match(orig, &rt.title);
        let mut depends_on: Vec<String> = Vec::new();
        let nd = rt.depends_on.len();
        let mut d: usize = 0;
        while d < nd
            invariant
                0 <= d <= nd == revised@[i as int].depends_on@.len(),
                0 <= i < revised@.len(),
                revised@.len() <= usize::MAX,
                depends_on@.len() == d,
                forall|m: int|
                    0 <= m < d ==> depends_on@[m]@ == resolved_dep(
                        revised@,
                        orig@,
                        revised@[i as int].depends_on@[m]@,
                    ),
            decreases nd - d,
        {
            let dep = &revised[i].depends_on[d];
            let resolved: String = if is_idlike(dep) {
                dep.clone()
            } else {
                match last_title_match(revised, dep) {
                    Some(k) => {
                        proof {
                            lemma_last_title_idx(revised@, dep@);
                        }
                        id_for(orig, &revised[k].title, k)
                    },
                    None => dep.clone(),
                }
            };
            depends_on.push(resolved);
            d = d + 1;
        }
        let mut acceptance: Vec<AcceptanceCriterion> = Vec::new();
        let na = rt.acceptance_criteria.len();
        let mut a: usize = 0;
        while a < na
            invariant
                0 <= a <= na == revised@[i as int].acceptance_criteria@.len(),
                0 <= i < revised@.len(),
                acceptance@.len() == a,
                forall|m: int|
                    0 <= m < a ==> acceptance@[m].criterion@ == revised@[i as int]
                        .acceptance_criteria@[m]@ && acceptance@[m].verification@.len() == 0,
            decreases na - a,
        {
            acceptance.push(
                AcceptanceCriterion {
                    criterion: revised[i].acceptance_criteria[a].clone(),
                    verification: String::new(),
                },
            );
            a = a + 1;
        }
        let context: Vec<String> = match first_match {
            Some(j) => clone_strings(&orig[j].files.context),
            None => Vec::new(),
        };
        let perspectives: Vec<String> = match first_match {
            Some(j) => clone_strings(&orig[j].perspectives),
            None => Vec::new(),
        };
        let workflow: Option<String> = match first_match {
            Some(j) => match &orig[j].workflow {
                Some(w) => Some(w.clone()),
                None => None,
            },
            None => None,
        };
        let priority: TaskPriority = match first_match {
            Some(j) => orig[j].priority,
            None => TaskPriority::Normal,
        };
        let task = UnifiedTask {
            id,
            title: rt.title.clone(),
            description: rt.description.clone(),
            files: TaskFiles { target: clone_strings(&rt.files), context },
            depends_on,
            acceptance_criteria: acceptance,
            perspectives,
            workflow,
            priority,
        };
        out.push(task);
        i = i + 1;
        proof {
            let t = out@[i - 1];
            let rv = revised@[i - 1];
            let fm = first_title_idx(orig@, rv.title@);
            assert(t.id@ == revised_id(orig@, rv.title@, i - 1));
            assert(t.title@ == rv.title@);
            assert(t.description@ == rv.description@);
            assert(t.files.target@.len() == rv.files@.len());
            if fm < orig@.len() {
                assert(t.files.context@ == orig@[fm].files.context@);
                assert(t.perspectives@ == orig@[fm].perspectives@);
            } else {
                assert(t.files.context@ =~= Seq::<String>::empty());
                assert(t.perspectives@ =~= Seq::<String>::empty());
            }
            assert(t.depends_on@.len() == rv.depends_on@.len());
            assert(t.acceptance_criteria@.len() == rv.acceptance_criteria@.len());
            assert(merged_task_ok(t, revised@, orig@, i - 1));
        }
    }
    out
}

/// Plan revision id stability: when every revised task's title already
/// appears among the original tasks — descriptions or criteria may differ
/// — every merged task keeps the id of the first original task with its
/// title; no new ids are minted.
pub proof fn lemma_revision_id_stability(
    out: Seq<UnifiedTask>,
    revised: Seq<RevisedTask>,
    orig: Seq<UnifiedTask>,
)
    requires
        out.len() == revised.len(),
        forall|i: int| 0 <= i < out.len() ==> merged_task_ok(out[i], revised, orig, i),
        forall|i: int|
            0 <= i < revised.len() ==> first_title_idx(orig, revised[i].title@) < orig.len(),
    ensures
        forall|i: int|
            0 <= i < out.len() ==> out[i].id@ == orig[first_title_idx(
                orig,
                revised[i].title@,
            )].id@,
{
}

/// Parses revision YAML and merges it into a complete replacement plan:
/// the revised tasks (with stable ids) replace the original's, the
/// questions, risks and deferred tasks carry over unchanged, and the
/// revision summary replaces the original's when present.
pub fn parse_revision_yaml(raw: &str, original: &UnifiedPlan) -> (r: Result<UnifiedPlan,
    PlannerError>)
    ensures
        r matches Ok(p) ==> {
            &&& p.tasks@.len() >= 1
            &&& exists|rev: Seq<RevisedTask>| #[trigger] tasks_merged(
                p.tasks@,
                rev,
                original.tasks@,
            )
            &&& p.questions@.len() == original.questions@.len()
            &&& (forall|k: int|
                0 <= k < p.questions@.len() ==> question_eq(
                    p.questions@[k],
                    original.questions@[k],
                ))
            &&& p.risks@.len() == original.risks@.len()
            &&& (forall|k: int|
                0 <= k < p.risks@.len() ==> risk_eq(p.risks@[k], original.risks@[k]))
            &&& p.deferred@.len() == original.deferred@.len()
            &&& (forall|k: int|
                0 <= k < p.deferred@.len() ==> deferred_eq(p.deferred@[k], original.deferred@[k]))
            &&& (original.summary is Some ==> p.summary is Some)
        },
{
    let yaml_str = match extract_yaml(raw) {
        Ok(y) => y,
        Err(e) => {
            return Err(e);
        },
    };
    let value = match parse_yaml_as_json(yaml_str.as_str()) {
        Some(v) => v,
        None => {
            return Err(
                PlannerError::ParseOutput(
                    string_of(&chars_of("Failed to parse revision YAML")),
                ),
            );
        },
    };
    let decoded = match decode_revision(&value) {
        Some(d) => d,
        None => {
            return Err(
                PlannerError::ParseOutput(
                    string_of(&chars_of("Failed to parse revision YAML")),
                ),
            );
        },
    };
    let (revised, revision_summary) = decoded;
    if revised.len() == 0 {
        return Err(
            PlannerError::ParseOutput(string_of(&chars_of("Revision produced no tasks"))),
        );
    }
    let tasks = merge_revised_tasks(&revised, &original.tasks);
    proof {
        assert(tasks_merged(tasks@, revised@, original.tasks@));
    }
    let summary: Option<String> = match revision_summary {
        Some(s) => Some(s),
        None => match &original.summary {
            Some(s) => Some(s.clone()),
            None => None,
        },
    };
    Ok(
        UnifiedPlan {
            tasks,
            questions: clone_questions(&original.questions),
            risks: clone_risks(&original.risks),
            deferred: clone_deferred(&original.deferred),
            summary,
        },
    )
}

/// Copies the question list, content preserved field for field.
fn clone_questions(qs: &Vec<UnifiedQuestion>) -> (r: Vec<UnifiedQuestion>)
    ensures
        r@.len() == qs@.len(),
        forall|k: int| 0 <= k < r@.len() ==> question_eq(r@[k], qs@[k]),
{
    let n = qs.len();
    let mut out: Vec<UnifiedQuestion> = Vec::new();
    let mut i: usize = 0;
    while i < n
        invariant
            0 <= i <= n == qs@.len(),
            out@.len() == i,
            forall|k: int| 0 <= k < i ==> question_eq(out@[k], qs@[k]),
        decreases n - i,
    {
        let q = &qs[i];
        out.push(
            UnifiedQuestion {
                question: q.question.clone(),
                context: q.context.clone(),
                raised_by: crate::discovery::clone_strings(&q.raised_by),
                options: crate::discovery::clone_strings(&q.options),
                blocks: crate::discovery::clone_strings(&q.blocks),
                answer: match &q.answer {
                    Some(a) => Some(a.clone()),
                    None => None,
                },
            },
        );
        i = i + 1;
    }
    out
}

/// Copies the risk list, content preserved field for field.
fn clone_risks(rs: &Vec<Risk>) -> (r: Vec<Risk>)
    ensures
        r@.len() == rs@.len(),
        forall|k: int| 0 <= k < r@.len() ==> risk_eq(r@[k], rs@[k]),
{
    let n = rs.len();
    let mut out: Vec<Risk> = Vec::new();
    let mut i: usize = 0;
    while i < n
        invariant
            0 <= i <= n == rs@.len(),
            out@.len() == i,
            forall|k: int| 0 <= k < i ==> risk_eq(out@[k], rs@[k]),
        decreases n - i,
    {
        let x = &rs[i];
        out.push(
            Risk {
                description: x.description.clone(),
                raised_by: crate::discovery::clone_strings(&x.raised_by),
                severity: x.severity,
                mitigation: match &x.mitigation {
                    Some(m) => Some(m.clone()),
                    None => None,
                },
            },
        );
        i = i + 1;
    }
    out
}

/// Copies the deferred-task list, content preserved field for field.
fn clone_deferred(ds: &Vec<DeferredTask>) -> (r: Vec<DeferredTask>)
    ensures
        r@.len() == ds@.len(),
        forall|k: int| 0 <= k < r@.len() ==> deferred_eq(r@[k], ds@[k]),
{
    let n = ds.len();
    let mut out: Vec<DeferredTask> = Vec::new();
    let mut i: usize = 0;
    while i < n
        invariant
            0 <= i <= n == ds@.len(),
            out@.len() == i,
            forall|k: int| 0 <= k < i ==> deferred_eq(out@[k], ds@[k]),
        decreases n - i,
    {
        let d = &ds[i];
        out.push(DeferredTask { title: d.title.clone(), rationale: d.rationale.clone() });
        i = i + 1;
    }
    out
}

/// Double quotes replaced by apostrophes, so a value can sit inside a
/// double-quoted YAML scalar.
pub open spec fn squash_quotes(s: Seq<char>) -> Seq<char> {
    s.map(|_i: int, c: char| if c == '"' { '\'' } else { c })
}

/// Newlines replaced by spaces.
pub open spec fn flatten_newlines(s: Seq<char>) -> Seq<char> {
    s.map(|_i: int, c: char| if c == '\n' { ' ' } else { c })
}

/// Maps text through `squash_quotes`.
fn squash_quotes_chars(s: &Vec<char>) -> (r: Vec<char>)
    ensures
        r@ == squash_quotes(s@),
{
    let n = s.len();
    let mut out: Vec<char> = Vec::new();
    let mut i: usize = 0;
    while i < n
        invariant
            0 <= i <= n == s@.len(),
            out@ == squash_quotes(s@.take(i as int)),
        decreases n - i,
    {
        let c = s[i];
        if c == '"' {
            out.push('\'');
        } else {
            out.push(c);
        }
        i = i + 1;
        proof {
            assert(out@ =~= squash_quotes(s@.take(i as int)));
        }
    }
    proof {
        assert(s@.take(n as int) =~= s@);
    }
    out
}

/// Maps text through `flatten_newlines`.
fn flatten_newlines_chars(s: &Vec<char>) -> (r: Vec<char>)
    ensures
        r@ == flatten_newlines(s@),
{
    let n = s.len();
    let mut out: Vec<char> = Vec::new();
    let mut i: usize = 0;
    while i < n
        invariant
            0 <= i <= n == s@.len(),
            out@ == flatten_newlines(s@.take(i as int)),
        decreases n - i,
    {
        let c = s[i];
        if c == '\n' {
            out.push(' ');
        } else {
            out.push(c);
        }
        i = i + 1;
        proof {
            assert(out@ =~= flatten_newlines(s@.take(i as int)));
        }
    }
    proof {
        assert(s@.take(n as int) =~= s@);
    }
    out
}

/// The condensed-YAML lines of a task's acceptance criteria.
pub open spec fn criterion_yaml_lines(cs: Seq<AcceptanceCriterion>) -> Seq<char>
    decreases cs.len(),
{
    if cs.len() == 0 {
        Seq::empty()
    } else {
        criterion_yaml_lines(cs.drop_last()) + "      - \""@ + squash_quotes(
            cs.last().criterion@,
        ) + "\"\n"@
    }
}

/// The condensed-YAML lines of a task's target files.
pub open spec fn file_yaml_lines(fs: Seq<String>) -> Seq<char>
    decreases fs.len(),
{
    if fs.len() == 0 {
        Seq::empty()
    } else {
        file_yaml_lines(fs.drop_last()) + "      - \""@ + fs.last()@ + "\"\n"@
    }
}

/// One task in the condensed YAML the revision call receives: title and
/// flattened description (quotes squashed), then the criteria and target
/// files as quoted list items.
pub open spec fn task_yaml_spec(t: UnifiedTask) -> Seq<char> {
    "  - title: \""@ + squash_quotes(t.title@) + "\"\n    description: \""@ + flatten_newlines(
        squash_quotes(t.description@),
    ) + "\"\n    acceptance_criteria:\n"@ + criterion_yaml_lines(t.acceptance_criteria@)
        + "    files:\n"@ + file_yaml_lines(t.files.target@)
}

/// The condensed YAML of the whole task list, task blocks joined by
/// newlines.
pub open spec fn tasks_yaml_spec(ts: Seq<UnifiedTask>) -> Seq<char>
    decreases ts.len(),
{
    if ts.len() == 0 {
        Seq::empty()
    } else if ts.len() == 1 {
        task_yaml_spec(ts[0])
    } else {
        tasks_yaml_spec(ts.drop_last()) + seq!['\n'] + task_yaml_spec(ts.last())
    }
}

/// One numbered question/answer pair of the revision prompt.
pub open spec fn answer_entry_spec(q: Seq<char>, a: Seq<char>, idx: int) -> Seq<char> {
    dec_digits(idx) + ". Q: "@ + q + "\n   A: "@ + a
}

/// The literal question/answer pairs, numbered from one and separated by
/// blank lines.
pub open spec fn answers_text_spec(answers: Seq<(String, String)>) -> Seq<char>
    decreases answers.len(),
{
    if answers.len() == 0 {
        Seq::empty()
    } else if answers.len() == 1 {
        answer_entry_spec(answers[0].0@, answers[0].1@, 1)
    } else {
        answers_text_spec(answers.drop_last()) + "\n\n"@ + answer_entry_spec(
            answers.last().0@,
            answers.last().1@,
            answers.len() as int,
        )
    }
}

/// The whole revision prompt: the template, the current tasks in
/// condensed YAML, the answers, and the replacement instruction.
pub open spec fn revision_prompt_spec(
    template: Seq<char>,
    tasks: Seq<UnifiedTask>,
    answers: Seq<(String, String)>,
) -> Seq<char> {
    template + "\n\n## Original Tasks\n\n```yaml\ntasks:\n"@ + tasks_yaml_spec(tasks)
        + "\n```\n\n## User's Answers\n\n"@ + answers_text_spec(answers)
        + "\n\n## Instructions\n\nRevise ALL tasks to match the user's answers. Output the complete revised task list as YAML."@
}

/// Builds one task's condensed-YAML block, per `task_yaml_spec`.
fn build_task_yaml(t: &UnifiedTask) -> (r: Vec<char>)
    ensures
        r@ == task_yaml_spec(*t),
{
    let mut out = chars_of("  - title: \"");
    let title = squash_quotes_chars(&string_chars(&t.title));
    extend_chars(&mut out, &title);
    let p1 = chars_of("\"\n    description: \"");
    extend_chars(&mut out, &p1);
    let desc = flatten_newlines_chars(&squash_quotes_chars(&string_chars(&t.description)));
    extend_chars(&mut out, &desc);
    let p2 = chars_of("\"\n    acceptance_criteria:\n");
    extend_chars(&mut out, &p2);
    let na = t.acceptance_criteria.len();
    let mut a: usize = 0;
    proof {
        assert(t.acceptance_criteria@.take(0) =~= Seq::<AcceptanceCriterion>::empty());
        assert(out@ =~= "  - title: \""@ + squash_quotes(t.title@)
            + "\"\n    description: \""@ + flatten_newlines(squash_quotes(t.description@))
            + "\"\n    acceptance_criteria:\n"@ + criterion_yaml_lines(
            t.acceptance_criteria@.take(0),
        ));
    }
    let ghost prefix = out@;
    while a < na
        invariant
            0 <= a <= na == t.acceptance_criteria@.len(),
            out@ == prefix + criterion_yaml_lines(t.acceptance_criteria@.take(a as int)),
        decreases na - a,
    {
        proof {
            assert(t.acceptance_criteria@.take(a + 1).drop_last() =~= t.acceptance_criteria@.take(
                a as int,
            ));
            assert(t.acceptance_criteria@.take(a + 1).last() == t.acceptance_criteria@[a as int]);
        }
        let q1 = chars_of("      - \"");
        extend_chars(&mut out, &q1);
        let crit = squash_quotes_chars(&string_chars(&t.acceptance_criteria[a].criterion));
        extend_chars(&mut out, &crit);
        let q2 = chars_of("\"\n");
        extend_chars(&mut out, &q2);
        a = a + 1;
        proof {
            assert(out@ =~= prefix + criterion_yaml_lines(t.acceptance_criteria@.take(a as int)));
        }
    }
    proof {
        assert(t.acceptance_criteria@.take(na as int) =~= t.acceptance_criteria@);
    }
    let p3 = chars_of("    files:\n");
    extend_chars(&mut out, &p3);
    let nf = t.files.target.len();
    let mut f: usize = 0;
    proof {
        assert(t.files.target@.take(0) =~= Seq::<String>::empty());
    }
    let ghost prefix2 = out@;
    proof {
        assert(out@ =~= prefix2 + file_yaml_lines(t.files.target@.take(0)));
    }
    while f < nf
        invariant
            0 <= f <= nf == t.files.target@.len(),
            out@ == prefix2 + file_yaml_lines(t.files.target@.take(f as int)),
        decreases nf - f,
    {
        proof {
            assert(t.files.target@.take(f + 1).drop_last() =~= t.files.target@.take(f as int));
            assert(t.files.target@.take(f + 1).last() == t.files.target@[f as int]);
        }
        let q1 = chars_of("      - \"");
        extend_chars(&mut out, &q1);
        let fl = string_chars(&t.files.target[f]);
        extend_chars(&mut out, &fl);
        let q2 = chars_of("\"\n");
        extend_chars(&mut out, &q2);
        f = f + 1;
        proof {
            assert(out@ =~= prefix2 + file_yaml_lines(t.files.target@.take(f as int)));
        }
    }
    proof {
        assert(t.files.target@.take(nf as int) =~= t.files.target@);
        assert(out@ =~= task_yaml_spec(*t));
    }
    out
}

/// Builds the whole revision prompt, per `revision_prompt_spec`.
pub fn build_revision_prompt(
    template: &str,
    plan: &UnifiedPlan,
    answers: &Vec<(String, String)>,
) -> (r: String)
    ensures
        r@ == revision_prompt_spec(template@, plan.tasks@, answers@),
{
    let mut out = chars_of(template);
    let p1 = chars_of("\n\n## Original Tasks\n\n```yaml\ntasks:\n");
    extend_chars(&mut out, &p1);
    let nt = plan.tasks.len();
    let mut t: usize = 0;
    let ghost prefix = out@;
    proof {
        assert(plan.tasks@.take(0) =~= Seq::<UnifiedTask>::empty());
    }
    while t < nt
        invariant
            0 <= t <= nt == plan.tasks@.len(),
            out@ == prefix + tasks_yaml_spec(plan.tasks@.take(t as int)),
        decreases nt - t,
    {
        proof {
            assert(plan.tasks@.take(t + 1).drop_last() =~= plan.tasks@.take(t as int));
            assert(plan.tasks@.take(t + 1).last() == plan.tasks@[t as int]);
        }
        if t > 0 {
            out.push('\n');
        }
        let block = build_task_yaml(&plan.tasks[t]);
        extend_chars(&mut out, &block);
        t = t + 1;
        proof {
            assert(out@ =~= prefix + tasks_yaml_spec(plan.tasks@.take(t as int)));
        }
    }
    proof {
        assert(plan.tasks@.take(nt as int) =~= plan.tasks@);
    }
    let p2 = chars_of("\n```\n\n## User's Answers\n\n");
    extend_chars(&mut out, &p2);
    let nq = answers.len();
    let mut q: usize = 0;
    let ghost prefix2 = out@;
    proof {
        assert(answers@.take(0) =~= Seq::<(String, String)>::empty());
    }
    while q < nq
        invariant
            0 <= q <= nq == answers@.len(),
            out@ == prefix2 + answers_text_spec(answers@.take(q as int)),
        decreases nq - q,
    {
        proof {
            assert(answers@.take(q + 1).drop_last() =~= answers@.take(q as int));
            assert(answers@.take(q + 1).last() == answers@[q as int]);
        }
        if q > 0 {
            let sep = chars_of("\n\n");
            extend_chars(&mut out, &sep);
        }
        let num = u64_to_chars((q + 1) as u64);
        extend_chars(&mut out, &num);
        let e1 = chars_of(". Q: ");
        extend_chars(&mut out, &e1);
        let qs = string_chars(&answers[q].0);
        extend_chars(&mut out, &qs);
        let e2 = chars_of("\n   A: ");
        extend_chars(&mut out, &e2);
        let ans = string_chars(&answers[q].1);
        extend_chars(&mut out, &ans);
        q = q + 1;
        proof {
            assert(out@ =~= prefix2 + answers_text_spec(answers@.take(q as int)));
        }
    }
    proof {
        assert(answers@.take(nq as int) =~= answers@);
    }
    let p3 = chars_of(
        "\n\n## Instructions\n\nRevise ALL tasks to match the user's answers. Output the complete revised task list as YAML.",
    );
    extend_chars(&mut out, &p3);
    proof {
        assert(out@ =~= revision_prompt_spec(template@, plan.tasks@, answers@));
    }
    string_of(&out)
}

/// The full reducer prompt: the template and the fragments, serialized
/// outside the library, in a fenced JSON block.
pub open spec fn reducer_prompt_spec(template: Seq<char>, fragments_json: Seq<char>) -> Seq<
    char,
> {
    template + "\n\n## Input Fragments\n\n```json\n"@ + fragments_json + "\n```"@
}

/// Builds the reducer prompt, per `reducer_prompt_spec`.
pub fn build_reducer_prompt(template: &str, fragments_json: &str) -> (r: String)
    ensures
        r@ == reducer_prompt_spec(template@, fragments_json@),
{
    let mut out = chars_of(template);
    let p1 = chars_of("\n\n## Input Fragments\n\n```json\n");
    extend_chars(&mut out, &p1);
    let j = chars_of(fragments_json);
    extend_chars(&mut out, &j);
    let p2 = chars_of("\n```");
    extend_chars(&mut out, &p2);
    proof {
        assert(out@ =~= reducer_prompt_spec(template@, fragments_json@));
    }
    string_of(&out)
}

} // verus!
