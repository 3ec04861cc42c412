//! Aggregating findings across units and decoding the reducer's
//! deduplicated output.
//!
//! Walking the report directory and invoking the reducer CLI happen
//! outside the library; what stands here is the fingerprint attachment,
//! the below-threshold pass-through, the unit id recovered from a
//! findings file's name, and the tolerant decode of reduced output.

use vstd::prelude::*;
use crate::errors::PostprocessError;
use crate::finding::{Finding, spec_fingerprint, finding_eq};
use crate::jsonvalue::{parse_json_value, value_get, value_as_string, value_as_u64, value_as_array};
use crate::decode::{field_string_or_empty, field_opt_string, field_string_list, field_string};
use crate::jsonscan::extract_json;
use crate::strutil::{string_of, chars_of};
use crate::text::matches_at;

verus! {

/// A finding with its source unit and fingerprint attached.
#[derive(Debug, Clone)]
pub struct SourcedFinding {
    pub reviewer_id: String,
    pub fingerprint: String,
    pub finding: Finding,
}

/// A finding after deduplication, carrying the fingerprints it subsumes.
#[derive(Debug, Clone)]
pub struct ReducedFinding {
    pub merged_from: Vec<String>,
    pub id: String,
    pub finding_type: String,
    pub title: String,
    pub priority: String,
    pub file: String,
    pub line: u32,
    pub description: String,
    pub remediation: String,
    pub acceptance_criteria: Vec<String>,
    pub references: Vec<String>,
}

/// A cluster of related findings, by fingerprint.
#[derive(Debug, Clone)]
pub struct FindingCluster {
    pub name: String,
    pub fingerprints: Vec<String>,
    pub rationale: String,
}

/// What the postprocess step writes out.
#[derive(Debug, Clone)]
pub struct PostprocessResult {
    pub original_count: usize,
    pub reduced_count: usize,
    pub clusters: Vec<FindingCluster>,
    pub findings: Vec<ReducedFinding>,
    pub summary: Option<String>,
}

/// Whether the finding count is below the reduction threshold.
pub fn below_threshold(count: usize, min_findings: usize) -> (r: bool)
    ensures
        r == (count < min_findings),
{
    count < min_findings
}

/// Attaches the unit id and content fingerprint to each finding of
/// one unit's findings file.
pub fn source_findings(reviewer_id: &str, findings: Vec<Finding>) -> (r: Vec<SourcedFinding>)
    ensures
        r@.len() == findings@.len(),
        forall|k: int|
            #![trigger r@[k]]
            0 <= k < r@.len() ==> r@[k].reviewer_id@ == reviewer_id@ && r@[k].fingerprint@
                == spec_fingerprint(&findings@[k], reviewer_id@) && finding_eq(
                r@[k].finding,
                findings@[k],
            ),
{
    let n = findings.len();
    let mut out: Vec<SourcedFinding> = Vec::new();
    let mut i: usize = 0;
    while i < n
        invariant
            0 <= i <= n == findings@.len(),
            out@.len() == i,
            forall|k: int|
                #![trigger out@[k]]
                0 <= k < i ==> out@[k].reviewer_id@ == reviewer_id@ && out@[k].fingerprint@
                    == spec_fingerprint(&findings@[k], reviewer_id@) && finding_eq(
                    out@[k].finding,
                    findings@[k],
                ),
        decreases n - i,
    {
        let fingerprint = findings[i].fingerprint(reviewer_id);
        let rebuilt = Finding {
            id: findings[i].id.clone(),
            finding_type: findings[i].finding_type.clone(),
            title: findings[i].title.clone(),
            priority: findings[i].priority,
            file: findings[i].file.clone(),
            line: findings[i].line,
            snippet: match &findings[i].snippet {
                Some(s) => Some(s.clone()),
                None => None,
            },
            description: findings[i].description.clone(),
            remediation: findings[i].remediation.clone(),
            acceptance_criteria: crate::discovery::clone_strings(&findings[i].acceptance_criteria),
            references: crate::discovery::clone_strings(&findings[i].references),
        };
        let rid_chars = chars_of(reviewer_id);
        let rid = string_of(&rid_chars);
        proof {
            assert(rid@ == reviewer_id@);
        }
        out.push(SourcedFinding { reviewer_id: rid, fingerprint, finding: rebuilt });
        i = i + 1;
    }
    out
}

/// The suffix a findings file's stem carries.
pub open spec fn findings_suffix() -> Seq<char> {
    ".findings"@
}

/// The file stem with every trailing `.findings` removed: the unit id
/// a findings file was written for.
pub open spec fn spec_strip_findings(stem: Seq<char>) -> Seq<char>
    decreases stem.len(),
{
    if stem.len() >= 9 && stem.subrange(stem.len() - 9, stem.len() as int) == findings_suffix() {
        spec_strip_findings(stem.take(stem.len() - 9))
    } else {
        stem
    }
}

/// Recovers the unit id from a findings file's stem, stripping every
/// trailing `.findings`.
pub fn reviewer_id_from_stem(stem: &str) -> (r: String)
    ensures
        r@ == spec_strip_findings(stem@),
{
    let mut chars = chars_of(stem);
    let suffix = chars_of(".findings");
    proof {
        reveal_strlit(".findings");
        assert(suffix@.len() == 9);
    }
    loop
        invariant
            suffix@ == findings_suffix(),
            suffix@.len() == 9,
            spec_strip_findings(stem@) == spec_strip_findings(chars@),
        decreases chars@.len(),
    {
        let n = chars.len();
        if n < 9 {
            proof {
                assert(spec_strip_findings(chars@) == chars@);
            }
            return string_of(&chars);
        }
        if crate::text::matches_at_exec(&chars, n - 9, &suffix) {
            proof {
                assert(chars@.subrange(chars@.len() - 9, chars@.len() as int) =~= suffix@);
            }
            let shorter = crate::text::subrange_vec(&chars, 0, n - 9);
            proof {
                assert(shorter@ =~= chars@.take(chars@.len() - 9));
            }
            chars = shorter;
        } else {
            proof {
                if chars@.subrange(chars@.len() - 9, chars@.len() as int) == findings_suffix() {
                    assert(matches_at(chars@, chars@.len() - 9, suffix@));
                }
            }
            return string_of(&chars);
        }
    }
}

/// The pass-through result used below the reduction threshold: every
/// sourced finding becomes its own reduced finding, subsuming only its
/// own fingerprint, with its priority spelled as its label.
pub fn passthrough_result(sourced: &Vec<SourcedFinding>) -> (r: PostprocessResult)
    ensures
        r.original_count == sourced@.len(),
        r.reduced_count == sourced@.len(),
        r.clusters@.len() == 0,
        r.summary is None,
        r.findings@.len() == sourced@.len(),
        forall|k: int|
            #![trigger sourced@[k]]
            0 <= k < sourced@.len() ==> {
                let sf = sourced@[k];
                let rf = r.findings@[k];
                &&& rf.merged_from@.len() == 1
                &&& rf.merged_from@[0]@ == sf.fingerprint@
                &&& rf.id@ == sf.finding.id@
                &&& rf.finding_type@ == sf.finding.finding_type@
                &&& rf.title@ == sf.finding.title@
                &&& rf.priority@ == sf.finding.priority.spec_label()
                &&& rf.file@ == sf.finding.file@
                &&& rf.line == sf.finding.line
                &&& rf.description@ == sf.finding.description@
                &&& rf.remediation@ == sf.finding.remediation@
                &&& rf.acceptance_criteria@ == sf.finding.acceptance_criteria@
                &&& rf.references@ == sf.finding.references@
            },
{
    let n = sourced.len();
    let mut findings: Vec<ReducedFinding> = Vec::new();
    let mut i: usize = 0;
    while i < n
        invariant
            0 <= i <= n == sourced@.len(),
            findings@.len() == i,
            forall|k: int|
                #![trigger sourced@[k]]
                0 <= k < i ==> {
                    let sf = sourced@[k];
                    let rf = findings@[k];
                    &&& rf.merged_from@.len() == 1
                    &&& rf.merged_from@[0]@ == sf.fingerprint@
                    &&& rf.id@ == sf.finding.id@
                    &&& rf.finding_type@ == sf.finding.finding_type@
                    &&& rf.title@ == sf.finding.title@
                    &&& rf.priority@ == sf.finding.priority.spec_label()
                    &&& rf.file@ == sf.finding.file@
                    &&& rf.line == sf.finding.line
                    &&& rf.description@ == sf.finding.description@
                    &&& rf.remediation@ == sf.finding.remediation@
                    &&& rf.acceptance_criteria@ == sf.finding.acceptance_criteria@
                    &&& rf.references@ == sf.finding.references@
                },
        decreases n - i,
    {
        let sf = &sourced[i];
        let mut merged_from: Vec<String> = Vec::new();
        merged_from.push(sf.fingerprint.clone());
        let rf = ReducedFinding {
            merged_from,
            id: sf.finding.id.clone(),
            finding_type: sf.finding.finding_type.clone(),
            title: sf.finding.title.clone(),
            priority: string_of(&chars_of(sf.finding.priority.label())),
            file: sf.finding.file.clone(),
            line: sf.finding.line,
            description: sf.finding.description.clone(),
            remediation: sf.finding.remediation.clone(),
            acceptance_criteria: crate::discovery::clone_strings(&sf.finding.acceptance_criteria),
            references: crate::discovery::clone_strings(&sf.finding.references),
        };
        findings.push(rf);
        i = i + 1;
    }
    PostprocessResult {
        original_count: n,
        reduced_count: n,
        clusters: Vec::new(),
        findings,
        summary: None,
    }
}

/// Decodes one reduced finding: every field defaults.
fn decode_reduced_finding(v: &serde_json::Value) -> (r: Option<ReducedFinding>) {
    let merged_from = match field_string_list(v, "merged_from") {
        Some(l) => l,
        None => {
            return None;
        },
    };
    let id = match field_string_or_empty(v, "id") {
        Some(s) => s,
        None => {
            return None;
        },
    };
    let finding_type = match value_get(v, "finding_type") {
        Some(inner) => match value_as_string(inner) {
            Some(s) => s,
            None => {
                return None;
            },
        },
        None => match value_get(v, "type") {
            Some(inner) => match value_as_string(inner) {
                Some(s) => s,
                None => {
                    return None;
                },
            },
            None => String::new(),
        },
    };
    let title = match field_string_or_empty(v, "title") {
        Some(s) => s,
        None => {
            return None;
        },
    };
    let priority = match field_string_or_empty(v, "priority") {
        Some(s) => s,
        None => {
            return None;
        },
    };
    let file = match field_string_or_empty(v, "file") {
        Some(s) => s,
        None => {
            return None;
        },
    };
    let line: u32 = match value_get(v, "line") {
        None => 0,
        Some(inner) => match value_as_u64(inner) {
            Some(x) => {
                if x > 0xFFFF_FFFF {
                    return None;
                }
                x as u32
            },
            None => {
                return None;
            },
        },
    };
    let description = match field_string_or_empty(v, "description") {
        Some(s) => s,
        None => {
            return None;
        },
    };
    let remediation = match field_string_or_empty(v, "remediation") {
        Some(s) => s,
        None => {
            return None;
        },
    };
    let acceptance_criteria = match field_string_list(v, "acceptance_criteria") {
        Some(l) => l,
        None => {
            return None;
        },
    };
    let references = match field_string_list(v, "references") {
        Some(l) => l,
        None => {
            return None;
        },
    };
    Some(
        ReducedFinding {
            merged_from,
            id,
            finding_type,
            title,
            priority,
            file,
            line,
            description,
            remediation,
            acceptance_criteria,
            references,
        },
    )
}

/// Decodes a strict list of reduced findings.
fn decode_reduced_list(v: &serde_json::Value) -> (r: Option<Vec<ReducedFinding>>) {
    let arr = match value_as_array(v) {
        Some(a) => a,
        None => {
            return None;
        },
    };
    let n = arr.len();
    let mut out: Vec<ReducedFinding> = Vec::new();
    let mut i: usize = 0;
    while i < n
        invariant
            0 <= i <= n == arr@.len(),
        decreases n - i,
    {
        match decode_reduced_finding(&arr[i]) {
            Some(f) => out.push(f),
            None => {
                return None;
            },
        }
        i = i + 1;
    }
    Some(out)
}

/// Decodes one cluster: every field is required.
fn decode_cluster(v: &serde_json::Value) -> (r: Option<FindingCluster>) {
    let name = match field_string(v, "name") {
        Some(s) => s,
        None => {
            return None;
        },
    };
    let fingerprints = match value_get(v, "fingerprints") {
        Some(inner) => match crate::decode::decode_string_list(inner) {
            Some(l) => l,
            None => {
                return None;
            },
        },
        None => {
            return None;
        },
    };
    let rationale = match field_string(v, "rationale") {
        Some(s) => s,
        None => {
            return None;
        },
    };
    Some(FindingCluster { name, fingerprints, rationale })
}

/// Decodes a strict cluster list.
fn decode_cluster_list(v: &serde_json::Value) -> (r: Option<Vec<FindingCluster>>) {
    let arr = match value_as_array(v) {
        Some(a) => a,
        None => {
            return None;
        },
    };
    let n = arr.len();
    let mut out: Vec<FindingCluster> = Vec::new();
    let mut i: usize = 0;
    while i < n
        invariant
            0 <= i <= n == arr@.len(),
        decreases n - i,
    {
        match decode_cluster(&arr[i]) {
            Some(c) => out.push(c),
            None => {
                return None;
            },
        }
        i = i + 1;
    }
    Some(out)
}

/// The reduced output, as its three lists.
pub struct ReducedOutput {
    pub findings: Vec<ReducedFinding>,
    pub clusters: Vec<FindingCluster>,
    pub summary: Option<String>,
}

/// Locates JSON in the text and decodes reduced output with four levels
/// of tolerance: the full shape, the findings-only shape (dropping other
/// keys), a bare findings array, and a generic lookup whose clusters and
/// summary fall back to empty.
fn try_parse_reduced(s: &str) -> (r: Option<ReducedOutput>) {
    let json_str = match extract_json(s, true) {
        Some(j) => j,
        None => {
            return None;
        },
    };
    let value = match parse_json_value(json_str.as_str()) {
        Some(v) => v,
        None => {
            return None;
        },
    };
    // full shape: findings required, clusters and summary strict if present
    let full: Option<ReducedOutput> = match value_get(&value, "findings") {
        Some(fv) => match decode_reduced_list(fv) {
            Some(findings) => {
                let clusters_ok: Option<Vec<FindingCluster>> = match value_get(&value, "clusters") {
                    None => Some(Vec::new()),
                    Some(cv) => decode_cluster_list(cv),
                };
                match clusters_ok {
                    Some(clusters) => match field_opt_string(&value, "summary") {
                        Some(summary) => Some(ReducedOutput { findings, clusters, summary }),
                        None => None,
                    },
                    None => None,
                }
            },
            None => None,
        },
        None => None,
    };
    match full {
        Some(out) => {
            return Some(out);
        },
        None => {},
    }
    // findings-only shape: other keys dropped
    match value_get(&value, "findings") {
        Some(fv) => match decode_reduced_list(fv) {
            Some(findings) => {
                return Some(ReducedOutput { findings, clusters: Vec::new(), summary: None });
            },
            None => {},
        },
        None => {},
    }
    // a bare array of findings
    match decode_reduced_list(&value) {
        Some(findings) => {
            return Some(ReducedOutput { findings, clusters: Vec::new(), summary: None });
        },
        None => {},
    }
    // generic lookup: clusters and summary fall back
    match value_get(&value, "findings") {
        Some(fv) => match decode_reduced_list(fv) {
            Some(findings) => {
                let clusters = match value_get(&value, "clusters") {
                    Some(cv) => match decode_cluster_list(cv) {
                        Some(l) => l,
                        None => Vec::new(),
                    },
                    None => Vec::new(),
                };
                let summary = match field_opt_string(&value, "summary") {
                    Some(s) => s,
                    None => None,
                };
                Some(ReducedOutput { findings, clusters, summary })
            },
            None => None,
        },
        None => None,
    }
}

/// Parses the reducer CLI's output: the envelope form first, then the
/// text itself.
pub fn parse_reduced_output(raw: &str) -> (r: Result<ReducedOutput, PostprocessError>) {
    match parse_json_value(raw) {
        Some(envelope) => {
            match value_get(&envelope, "result") {
                Some(result_val) => match value_as_string(result_val) {
                    Some(inner) => match try_parse_reduced(inner.as_str()) {
                        Some(out) => {
                            return Ok(out);
                        },
                        None => {},
                    },
                    None => {},
                },
                None => {},
            }
        },
        None => {},
    }
    match try_parse_reduced(raw) {
        Some(out) => {
            return Ok(out);
        },
        None => {},
    }
    Err(
        PostprocessError::ParseOutput(
            string_of(&chars_of("Could not parse reduced findings from CLI output")),
        ),
    )
}

} // verus!
