//! Parsing one perspective's raw output into a plan fragment.
//!
//! Three levels of schema tolerance, tried in order: the canonical shape
//! (strict: one bad element refuses it); an alternate shape with synonym
//! list keys (`proposed_tasks`, `identified_concerns`, `open_questions`)
//! whose bad elements are dropped one by one; and a generic key lookup
//! that takes each list strictly or falls back to empty.

use vstd::prelude::*;
use crate::errors::PlannerError;
use crate::jsonvalue::{json_valid, parse_json_value, value_get, value_as_string, value_as_array};
use crate::decode::{field_string, field_opt_string, field_string_list, field_string_or_empty};
use crate::jsonscan::{extract_json, spec_extract_json, lemma_extract_json_valid};
use crate::strutil::{str_eq, string_of, chars_of};
use crate::text::extend_chars;
use crate::planner::types::{
    PlanFragment, FragmentTask, TaskFiles, AcceptanceCriterion, Concern, Question, Severity,
};

verus! {

/// The severity for its JSON label: exactly `low`, `medium` or `high`.
pub fn severity_of_label(s: &str) -> (r: Option<Severity>)
    ensures
        r == (if s@ == "low"@ {
            Some(Severity::Low)
        } else if s@ == "medium"@ {
            Some(Severity::Medium)
        } else if s@ == "high"@ {
            Some(Severity::High)
        } else {
            None::<Severity>
        }),
{
    if str_eq(s, "low") {
        Some(Severity::Low)
    } else if str_eq(s, "medium") {
        Some(Severity::Medium)
    } else if str_eq(s, "high") {
        Some(Severity::High)
    } else {
        None
    }
}

/// Decodes `{target, context}` file lists; absent keys give empty lists.
fn decode_task_files(v: &serde_json::Value) -> (r: Option<TaskFiles>) {
    let target = match field_string_list(v, "target") {
        Some(l) => l,
        None => {
            return None;
        },
    };
    let context = match field_string_list(v, "context") {
        Some(l) => l,
        None => {
            return None;
        },
    };
    Some(TaskFiles { target, context })
}

/// Decodes one acceptance criterion: `criterion` is required.
fn decode_criterion(v: &serde_json::Value) -> (r: Option<AcceptanceCriterion>) {
    let criterion = match field_string(v, "criterion") {
        Some(s) => s,
        None => {
            return None;
        },
    };
    let verification = match field_string_or_empty(v, "verification") {
        Some(s) => s,
        None => {
            return None;
        },
    };
    Some(AcceptanceCriterion { criterion, verification })
}

/// Decodes the criterion list at `key`; absent gives the empty list.
fn decode_criteria(v: &serde_json::Value, strict: bool) -> (r: Option<Vec<AcceptanceCriterion>>) {
    let arr = match value_as_array(v) {
        Some(a) => a,
        None => {
            return None;
        },
    };
    let n = arr.len();
    let mut out: Vec<AcceptanceCriterion> = Vec::new();
    let mut i: usize = 0;
    while i < n
        invariant
            0 <= i <= n == arr@.len(),
        decreases n - i,
    {
        match decode_criterion(&arr[i]) {
            Some(c) => out.push(c),
            None => {
                if strict {
                    return None;
                }
            },
        }
        i = i + 1;
    }
    Some(out)
}

/// Decodes one suggested task: `title` is required, everything else has
/// defaults.
fn decode_fragment_task(v: &serde_json::Value) -> (r: Option<FragmentTask>) {
    let title = match field_string(v, "title") {
        Some(s) => s,
        None => {
            return None;
        },
    };
    let rationale = match field_string_or_empty(v, "rationale") {
        Some(s) => s,
        None => {
            return None;
        },
    };
    let files = match value_get(v, "files") {
        None => TaskFiles { target: Vec::new(), context: Vec::new() },
        Some(inner) => match decode_task_files(inner) {
            Some(f) => f,
            None => {
                return None;
            },
        },
    };
    let dependencies = match field_string_list(v, "dependencies") {
        Some(l) => l,
        None => {
            return None;
        },
    };
    let acceptance_criteria = match value_get(v, "acceptance_criteria") {
        None => Vec::new(),
        Some(inner) => match decode_criteria(inner, true) {
            Some(l) => l,
            None => {
                return None;
            },
        },
    };
    let complexity = match field_opt_string(v, "complexity") {
        Some(c) => c,
        None => {
            return None;
        },
    };
    Some(FragmentTask { title, rationale, files, dependencies, acceptance_criteria, complexity })
}

/// Decodes one concern: `description` is required; an unknown severity
/// label refuses it, an absent one defaults to medium.
fn decode_concern(v: &serde_json::Value) -> (r: Option<Concern>) {
    let description = match field_string(v, "description") {
        Some(s) => s,
        None => {
            return None;
        },
    };
    let severity = match value_get(v, "severity") {
        None => Severity::Medium,
        Some(inner) => {
            let label = match value_as_string(inner) {
                Some(s) => s,
                None => {
                    return None;
                },
            };
            match severity_of_label(label.as_str()) {
                Some(sv) => sv,
                None => {
                    return None;
                },
            }
        },
    };
    let affects = match field_string_list(v, "affects") {
        Some(l) => l,
        None => {
            return None;
        },
    };
    Some(Concern { description, severity, affects })
}

/// Decodes one question: `question` is required.
fn decode_question(v: &serde_json::Value) -> (r: Option<Question>) {
    let question = match field_string(v, "question") {
        Some(s) => s,
        None => {
            return None;
        },
    };
    let options = match field_string_list(v, "options") {
        Some(l) => l,
        None => {
            return None;
        },
    };
    let default = match field_opt_string(v, "default") {
        Some(d) => d,
        None => {
            return None;
        },
    };
    let context = match field_opt_string(v, "context") {
        Some(c) => c,
        None => {
            return None;
        },
    };
    Some(Question { question, options, default, context })
}

/// Decodes a task list; in tolerant mode bad elements are dropped.
fn decode_task_list(v: &serde_json::Value, strict: bool) -> (r: Option<Vec<FragmentTask>>) {
    let arr = match value_as_array(v) {
        Some(a) => a,
        None => {
            return None;
        },
    };
    let n = arr.len();
    let mut out: Vec<FragmentTask> = Vec::new();
    let mut i: usize = 0;
    while i < n
        invariant
            0 <= i <= n == arr@.len(),
        decreases n - i,
    {
        match decode_fragment_task(&arr[i]) {
            Some(t) => out.push(t),
            None => {
                if strict {
                    return None;
                }
            },
        }
        i = i + 1;
    }
    Some(out)
}

/// Decodes a concern list; in tolerant mode bad elements are dropped.
fn decode_concern_list(v: &serde_json::Value, strict: bool) -> (r: Option<Vec<Concern>>) {
    let arr = match value_as_array(v) {
        Some(a) => a,
        None => {
            return None;
        },
    };
    let n = arr.len();
    let mut out: Vec<Concern> = Vec::new();
    let mut i: usize = 0;
    while i < n
        invariant
            0 <= i <= n == arr@.len(),
        decreases n - i,
    {
        match decode_concern(&arr[i]) {
            Some(c) => out.push(c),
            None => {
                if strict {
                    return None;
                }
            },
        }
        i = i + 1;
    }
    Some(out)
}

/// Decodes a question list; in tolerant mode bad elements are dropped.
fn decode_question_list(v: &serde_json::Value, strict: bool) -> (r: Option<Vec<Question>>) {
    let arr = match value_as_array(v) {
        Some(a) => a,
        None => {
            return None;
        },
    };
    let n = arr.len();
    let mut out: Vec<Question> = Vec::new();
    let mut i: usize = 0;
    while i < n
        invariant
            0 <= i <= n == arr@.len(),
        decreases n - i,
    {
        match decode_question(&arr[i]) {
            Some(q) => out.push(q),
            None => {
                if strict {
                    return None;
                }
            },
        }
        i = i + 1;
    }
    Some(out)
}

/// The perspective id to record: the decoded one unless empty.
fn perspective_or(decoded: String, perspective_id: &str) -> (r: String)
    ensures
        r@ == if decoded@.len() == 0 {
            perspective_id@
        } else {
            decoded@
        },
{
    if decoded.as_str().is_empty() {
        string_of(&chars_of(perspective_id))
    } else {
        decoded
    }
}

/// The canonical fragment shape: `perspective` required, lists strict.
fn decode_fragment_canonical(v: &serde_json::Value, perspective_id: &str) -> (r: Option<
    PlanFragment,
>) {
    let perspective = match field_string(v, "perspective") {
        Some(s) => s,
        None => {
            return None;
        },
    };
    let summary = match field_string_or_empty(v, "summary") {
        Some(s) => s,
        None => {
            return None;
        },
    };
    let tasks = match value_get(v, "tasks") {
        None => Vec::new(),
        Some(inner) => match decode_task_list(inner, true) {
            Some(l) => l,
            None => {
                return None;
            },
        },
    };
    let concerns = match value_get(v, "concerns") {
        None => Vec::new(),
        Some(inner) => match decode_concern_list(inner, true) {
            Some(l) => l,
            None => {
                return None;
            },
        },
    };
    let questions = match value_get(v, "questions") {
        None => Vec::new(),
        Some(inner) => match decode_question_list(inner, true) {
            Some(l) => l,
            None => {
                return None;
            },
        },
    };
    Some(
        PlanFragment {
            perspective: perspective_or(perspective, perspective_id),
            summary,
            tasks,
            concerns,
            questions,
        },
    )
}

/// The alternate shape: synonym keys accepted, bad elements dropped.
fn decode_fragment_alt(v: &serde_json::Value, perspective_id: &str) -> (r: Option<PlanFragment>) {
    let perspective = match field_string_or_empty(v, "perspective") {
        Some(s) => s,
        None => {
            return None;
        },
    };
    let summary = match field_string_or_empty(v, "summary") {
        Some(s) => s,
        None => {
            return None;
        },
    };
    let tasks_val = match value_get(v, "tasks") {
        Some(inner) => Some(inner),
        None => value_get(v, "proposed_tasks"),
    };
    let tasks = match tasks_val {
        None => Vec::new(),
        Some(inner) => match decode_task_list(inner, false) {
            Some(l) => l,
            None => {
                return None;
            },
        },
    };
    let concerns_val = match value_get(v, "concerns") {
        Some(inner) => Some(inner),
        None => value_get(v, "identified_concerns"),
    };
    let concerns = match concerns_val {
        None => Vec::new(),
        Some(inner) => match decode_concern_list(inner, false) {
            Some(l) => l,
            None => {
                return None;
            },
        },
    };
    let questions_val = match value_get(v, "questions") {
        Some(inner) => Some(inner),
        None => value_get(v, "open_questions"),
    };
    let questions = match questions_val {
        None => Vec::new(),
        Some(inner) => match decode_question_list(inner, false) {
            Some(l) => l,
            None => {
                return None;
            },
        },
    };
    Some(
        PlanFragment {
            perspective: perspective_or(perspective, perspective_id),
            summary,
            tasks,
            concerns,
            questions,
        },
    )
}

/// The generic lookup: each synonym list is taken strictly or falls back
/// to empty; never refuses.
fn decode_fragment_generic(v: &serde_json::Value, perspective_id: &str) -> (r: PlanFragment) {
    let tasks_val = match value_get(v, "tasks") {
        Some(inner) => Some(inner),
        None => value_get(v, "proposed_tasks"),
    };
    let tasks = match tasks_val {
        None => Vec::new(),
        Some(inner) => match decode_task_list(inner, true) {
            Some(l) => l,
            None => Vec::new(),
        },
    };
    let concerns_val = match value_get(v, "concerns") {
        Some(inner) => Some(inner),
        None => value_get(v, "identified_concerns"),
    };
    let concerns = match concerns_val {
        None => Vec::new(),
        Some(inner) => match decode_concern_list(inner, true) {
            Some(l) => l,
            None => Vec::new(),
        },
    };
    let questions_val = match value_get(v, "questions") {
        Some(inner) => Some(inner),
        None => value_get(v, "open_questions"),
    };
    let questions = match questions_val {
        None => Vec::new(),
        Some(inner) => match decode_question_list(inner, true) {
            Some(l) => l,
            None => Vec::new(),
        },
    };
    let summary = match field_string_or_empty(v, "summary") {
        Some(s) => s,
        None => String::new(),
    };
    let perspective = match field_string_or_empty(v, "perspective") {
        Some(s) => s,
        None => String::new(),
    };
    PlanFragment {
        perspective: perspective_or(perspective, perspective_id),
        summary,
        tasks,
        concerns,
        questions,
    }
}

/// Locates JSON in the text and decodes it with the three-level
/// fallback: a fragment comes out exactly when a JSON span extracts,
/// because the generic shape never refuses.
fn try_parse_fragment(s: &str, perspective_id: &str) -> (r: Option<PlanFragment>)
    ensures
        spec_extract_json(s@, true) is Some ==> r is Some,
        spec_extract_json(s@, true) is None ==> r is None,
{
    let json_str = match extract_json(s, true) {
        Some(j) => j,
        None => {
            return None;
        },
    };
    proof {
        lemma_extract_json_valid(s@, true);
    }
    let value = match parse_json_value(json_str.as_str()) {
        Some(v) => v,
        None => {
            proof {
                assert(false);
            }
            return None;
        },
    };
    match decode_fragment_canonical(&value, perspective_id) {
        Some(f) => {
            return Some(f);
        },
        None => {},
    }
    match decode_fragment_alt(&value, perspective_id) {
        Some(f) => {
            return Some(f);
        },
        None => {},
    }
    Some(decode_fragment_generic(&value, perspective_id))
}

/// Parses a perspective's raw output into a plan fragment: the envelope
/// form first, then the text itself; failure is a parse error naming the
/// perspective. Success is owed whenever a JSON span extracts from the
/// text itself; text that is not JSON and holds no extractable span is
/// owed the error.
pub fn parse_plan_fragment(raw: &str, perspective_id: &str) -> (r: Result<PlanFragment,
    PlannerError>)
    ensures
        spec_extract_json(raw@, true) is Some ==> r is Ok,
        (!json_valid(raw@) && spec_extract_json(raw@, true) is None) ==> r is Err,
{
    match parse_json_value(raw) {
        Some(envelope) => {
            match value_get(&envelope, "result") {
                Some(result_val) => match value_as_string(result_val) {
                    Some(inner) => match try_parse_fragment(inner.as_str(), perspective_id) {
                        Some(fragment) => {
                            return Ok(fragment);
                        },
                        None => {},
                    },
                    None => {},
                },
                None => {},
            }
        },
        None => {},
    }
    match try_parse_fragment(raw, perspective_id) {
        Some(fragment) => {
            return Ok(fragment);
        },
        None => {},
    }
    let mut msg = chars_of("Could not parse plan fragment from perspective ");
    let id_chars = chars_of(perspective_id);
    extend_chars(&mut msg, &id_chars);
    let tail = chars_of(" output");
    extend_chars(&mut msg, &tail);
    Err(PlannerError::ParseOutput(string_of(&msg)))
}

} // verus!
