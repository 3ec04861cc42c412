//! The findings pipeline: envelope unwrap, JSON decode, markdown fallback.
//!
//! Provider text is tried as an LLM-wrapper envelope (`{"result": "..."}`)
//! whose inner string is decoded as `{"findings": [...]}`; then the text
//! itself is decoded the same way; then the markdown-table fallback runs.
//! A unit that legitimately produces zero findings ends with the empty
//! list, never an error.

use vstd::prelude::*;
use crate::config::Priority;
use crate::finding::Finding;
use crate::jsonvalue::{
    json_valid, parse_json_value, value_get, value_as_string, value_as_u64, value_as_array,
};
use crate::decode::{field_string, field_opt_string, field_string_list};
use crate::jsonscan::{extract_json, spec_extract_json};
use crate::markdown::{try_parse_markdown_table, md_scan, split_lines, finding_of_row};
use crate::strutil::str_eq;

verus! {

/// The priority for its JSON label, which must be exactly `p0`, `p1` or
/// `p2`.
pub fn priority_of_label(s: &str) -> (r: Option<Priority>)
    ensures
        r == (if s@ == "p0"@ {
            Some(Priority::P0)
        } else if s@ == "p1"@ {
            Some(Priority::P1)
        } else if s@ == "p2"@ {
            Some(Priority::P2)
        } else {
            None::<Priority>
        }),
{
    if str_eq(s, "p0") {
        Some(Priority::P0)
    } else if str_eq(s, "p1") {
        Some(Priority::P1)
    } else if str_eq(s, "p2") {
        Some(Priority::P2)
    } else {
        None
    }
}

/// Decodes one finding object: `id`, `title`, `file` and `description`
/// are required strings; `type`/`finding_type`, `recommendation`/
/// `remediation` and the lists default when absent; `priority` must be a
/// known label when present and defaults to P1; `line` must fit `u32` and
/// defaults to 0.
fn decode_finding(v: &serde_json::Value) -> (r: Option<Finding>) {
    let id = match field_string(v, "id") {
        Some(s) => s,
        None => {
            return None;
        },
    };
    let title = match field_string(v, "title") {
        Some(s) => s,
        None => {
            return None;
        },
    };
    let file = match field_string(v, "file") {
        Some(s) => s,
        None => {
            return None;
        },
    };
    let description = match field_string(v, "description") {
        Some(s) => s,
        None => {
            return None;
        },
    };
    let finding_type = match value_get(v, "finding_type") {
        Some(inner) => match value_as_string(inner) {
            Some(s) => s,
            None => {
                return None;
            },
        },
        None => match value_get(v, "type") {
            Some(inner) => match value_as_string(inner) {
                Some(s) => s,
                None => {
                    return None;
                },
            },
            None => String::new(),
        },
    };
    let remediation = match value_get(v, "remediation") {
        Some(inner) => match value_as_string(inner) {
            Some(s) => s,
            None => {
                return None;
            },
        },
        None => match value_get(v, "recommendation") {
            Some(inner) => match value_as_string(inner) {
                Some(s) => s,
                None => {
                    return None;
                },
            },
            None => String::new(),
        },
    };
    let priority = match value_get(v, "priority") {
        None => Priority::P1,
        Some(inner) => {
            let label = match crate::jsonvalue::value_as_string(inner) {
                Some(s) => s,
                None => {
                    return None;
                },
            };
            match priority_of_label(label.as_str()) {
                Some(p) => p,
                None => {
                    return None;
                },
            }
        },
    };
    let line: u32 = match value_get(v, "line") {
        None => 0,
        Some(inner) => match value_as_u64(inner) {
            Some(n) => {
                if n > 0xFFFF_FFFF {
                    return None;
                }
                n as u32
            },
            None => {
                return None;
            },
        },
    };
    let snippet = match field_opt_string(v, "snippet") {
        Some(s) => s,
        None => {
            return None;
        },
    };
    let acceptance_criteria = match field_string_list(v, "acceptance_criteria") {
        Some(l) => l,
        None => {
            return None;
        },
    };
    let references = match field_string_list(v, "references") {
        Some(l) => l,
        None => {
            return None;
        },
    };
    Some(
        Finding {
            id,
            finding_type,
            title,
            priority,
            file,
            line,
            snippet,
            description,
            remediation,
            acceptance_criteria,
            references,
        },
    )
}

/// Decodes `{"findings": [...]}`: the key must hold an array and every
/// element must decode; one bad element refuses the whole list.
fn decode_findings_object(v: &serde_json::Value) -> (r: Option<Vec<Finding>>) {
    let findings_val = match value_get(v, "findings") {
        Some(inner) => inner,
        None => {
            return None;
        },
    };
    let arr = match value_as_array(findings_val) {
        Some(a) => a,
        None => {
            return None;
        },
    };
    let n = arr.len();
    let mut out: Vec<Finding> = Vec::new();
    let mut i: usize = 0;
    while i < n
        invariant
            0 <= i <= n == arr@.len(),
        decreases n - i,
    {
        match decode_finding(&arr[i]) {
            Some(f) => out.push(f),
            None => {
                return None;
            },
        }
        i = i + 1;
    }
    Some(out)
}

/// Locates a JSON object in the text and decodes it as a findings object;
/// where no span extracts, nothing is returned.
fn parse_findings_json(s: &str) -> (r: Option<Vec<Finding>>)
    ensures
        spec_extract_json(s@, false) is None ==> r is None,
{
    let json_str = match extract_json(s, false) {
        Some(j) => j,
        None => {
            return None;
        },
    };
    let value = match parse_json_value(json_str.as_str()) {
        Some(v) => v,
        None => {
            return None;
        },
    };
    decode_findings_object(&value)
}

/// Tries to parse findings from JSON output: first the envelope form
/// `{"result": "<inner text>"}` with the findings decoded from the inner
/// text, then the raw text itself. Text that is not JSON and holds no
/// extractable span yields nothing, so the markdown fallback gets its
/// turn.
pub fn try_parse_json(raw: &str) -> (r: Option<Vec<Finding>>)
    ensures
        (!json_valid(raw@) && spec_extract_json(raw@, false) is None) ==> r is None,
{
    match parse_json_value(raw) {
        Some(envelope) => {
            match value_get(&envelope, "result") {
                Some(result_val) => match value_as_string(result_val) {
                    Some(inner) => match parse_findings_json(inner.as_str()) {
                        Some(findings) => {
                            return Some(findings);
                        },
                        None => {},
                    },
                    None => {},
                },
                None => {},
            }
        },
        None => {},
    }
    parse_findings_json(raw)
}

/// Parses findings from provider output: the JSON pipeline first, then
/// the markdown-table fallback, and the empty list when neither yields a
/// record — producing no findings is not an error. When the text holds no
/// recoverable JSON at all, the result is exactly the markdown table's
/// rows, and empty when there are none.
pub fn parse_findings(raw: &str, reviewer_id: &str, default_priority: Priority) -> (r: Vec<
    Finding,
>)
    ensures
        (!json_valid(raw@) && spec_extract_json(raw@, false) is None) ==> ({
            let rows = md_scan(split_lines(raw@));
            match rows {
                None => r@.len() == 0,
                Some(rs) => if rs.len() == 0 {
                    r@.len() == 0
                } else {
                    r@.len() == rs.len() && (forall|k: int|
                        0 <= k < r@.len() ==> finding_of_row(
                            r@[k],
                            rs[k],
                            k + 1,
                            reviewer_id@,
                            default_priority,
                        ))
                },
            }
        }),
{
    match try_parse_json(raw) {
        Some(findings) => {
            return findings;
        },
        None => {},
    }
    match try_parse_markdown_table(raw, reviewer_id, default_priority) {
        Some(findings) => {
            return findings;
        },
        None => {},
    }
    Vec::new()
}

} // verus!
