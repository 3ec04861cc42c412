//! Issue creation planning and deduplication by fingerprint.
//!
//! Talking to the external issue CLI happens outside the library; the
//! search string, the issue title and body, and the decision taken for a
//! duplicate are all fixed here.

use vstd::prelude::*;
use crate::config::{DedupeAction, Priority};
use crate::errors::GitHubError;
use crate::finding::Finding;
use crate::text::{dec_digits, u64_to_chars, extend_chars};
use crate::strutil::{string_of, chars_of, string_chars};

verus! {

/// Looks up duplicates of a fingerprint.
#[derive(Debug, Clone)]
pub struct DedupeChecker {
    pub repo: Option<String>,
}

/// What the duplicate lookup found.
#[derive(Debug, Clone)]
pub enum DedupeResult {
    NotFound,
    Found { issue_number: u64, state: IssueState },
}

/// The state of an existing issue.
#[derive(Debug, Clone, Copy, PartialEq, Eq, Structural)]
pub enum IssueState {
    Open,
    Closed,
}

/// What became of one finding's issue.
#[derive(Debug, Clone)]
pub enum IssueResult {
    Created { url: String },
    Skipped { issue_number: u64 },
    Commented { issue_number: u64 },
    Reopened { issue_number: u64 },
}

impl DedupeChecker {
    /// A checker against this repository.
    pub fn new(repo: Option<String>) -> (r: DedupeChecker)
        ensures
            r.repo == repo,
    {
        DedupeChecker { repo }
    }
}

/// The search string that finds an issue by fingerprint marker.
pub open spec fn search_spec(fingerprint: Seq<char>) -> Seq<char> {
    "polyrev:fp:"@ + fingerprint + " in:body"@
}

/// Builds the duplicate-search string for a fingerprint.
pub fn dedupe_search(fingerprint: &str) -> (r: String)
    ensures
        r@ == search_spec(fingerprint@),
{
    let mut out = chars_of("polyrev:fp:");
    let fp = chars_of(fingerprint);
    extend_chars(&mut out, &fp);
    let tail = chars_of(" in:body");
    extend_chars(&mut out, &tail);
    proof {
        assert(out@ =~= search_spec(fingerprint@));
    }
    string_of(&out)
}

/// What to do about one finding, given the dedupe policy and what the
/// lookup found.
#[derive(Debug, Clone, Copy, PartialEq, Eq, Structural)]
pub enum IssuePlan {
    /// No duplicate (or dedupe off): create a fresh issue.
    CreateNew,
    /// A duplicate exists and the policy skips it.
    SkipExisting { issue_number: u64 },
    /// A duplicate exists and the policy comments on it.
    CommentExisting { issue_number: u64 },
    /// A duplicate exists and the policy reopens (when closed) and
    /// comments.
    ReopenExisting { issue_number: u64, needs_reopen: bool },
}

/// Decides what to do about one finding: without dedupe, or with no
/// duplicate found, a fresh issue is created; otherwise the configured
/// action applies, reopening only an issue that is closed.
pub fn plan_issue_action(dedupe: bool, action: DedupeAction, check: &DedupeResult) -> (r:
    IssuePlan)
    ensures
        !dedupe ==> r == IssuePlan::CreateNew,
        dedupe ==> match check {
            DedupeResult::NotFound => r == IssuePlan::CreateNew,
            DedupeResult::Found { issue_number, state } => r == match action {
                DedupeAction::Skip => IssuePlan::SkipExisting { issue_number: *issue_number },
                DedupeAction::Comment => IssuePlan::CommentExisting {
                    issue_number: *issue_number,
                },
                DedupeAction::Reopen => IssuePlan::ReopenExisting {
                    issue_number: *issue_number,
                    needs_reopen: *state == IssueState::Closed,
                },
            },
        },
{
    if !dedupe {
        return IssuePlan::CreateNew;
    }
    match check {
        DedupeResult::NotFound => IssuePlan::CreateNew,
        DedupeResult::Found { issue_number, state } => match action {
            DedupeAction::Skip => IssuePlan::SkipExisting { issue_number: *issue_number },
            DedupeAction::Comment => IssuePlan::CommentExisting { issue_number: *issue_number },
            DedupeAction::Reopen => IssuePlan::ReopenExisting {
                issue_number: *issue_number,
                needs_reopen: matches!(state, IssueState::Closed),
            },
        },
    }
}

/// Creates and formats issues for findings.
#[derive(Debug, Clone)]
pub struct IssueCreator {
    pub repo: Option<String>,
    pub labels: Vec<String>,
    pub assignees: Vec<String>,
    pub dedupe: bool,
    pub dedupe_action: DedupeAction,
}

/// The issue title: the priority label in brackets, then the finding's
/// title.
pub open spec fn title_spec(f: &Finding) -> Seq<char> {
    "["@ + f.priority.spec_label() + "] "@ + f.title@
}

/// The acceptance-criteria section: checkbox lines, or the fixed default
/// pair when the finding names none.
pub open spec fn criteria_spec(cs: Seq<String>) -> Seq<char>
    decreases cs.len(),
{
    if cs.len() == 0 {
        "- [ ] Address finding\n- [ ] Add test coverage"@
    } else if cs.len() == 1 {
        "- [ ] "@ + cs[0]@
    } else {
        criteria_spec(cs.drop_last()) + seq!['\n'] + "- [ ] "@ + cs.last()@
    }
}

/// The references section: bullet lines, or `N/A` when none.
pub open spec fn references_spec(rs: Seq<String>) -> Seq<char>
    decreases rs.len(),
{
    if rs.len() == 0 {
        "N/A"@
    } else if rs.len() == 1 {
        "- "@ + rs[0]@
    } else {
        references_spec(rs.drop_last()) + seq!['\n'] + "- "@ + rs.last()@
    }
}

/// The whole issue body for a finding, with the fingerprint marker the
/// duplicate search looks for.
pub open spec fn body_spec(f: &Finding, reviewer_id: Seq<char>, fingerprint: Seq<char>) -> Seq<
    char,
> {
    "<!-- polyrev:fp:"@ + fingerprint + " -->\n\n## Description\n\n"@ + f.description@
        + "\n\n## Location\n\n| Field | Value |\n|-------|-------|\n| **File** | `"@ + f.file@
        + seq![':'] + dec_digits(f.line as int) + "` |\n| **Type** | `"@ + (if f.finding_type@.len()
        == 0 {
        "general"@
    } else {
        f.finding_type@
    }) + "` |\n| **Unit** | `"@ + reviewer_id + "` |\n| **Priority** | `"@
        + f.priority.spec_label() + "` |\n\n## Code\n\n```\n"@ + (match f.snippet {
        Some(s) => s@,
        None => "N/A"@,
    }) + "\n```\n\n## Remediation\n\n"@ + f.remediation@ + "\n\n## Acceptance Criteria\n\n"@
        + criteria_spec(f.acceptance_criteria@) + "\n\n## References\n\n"@ + references_spec(
        f.references@,
    ) + "\n\n---\n*Generated by [polyrev](https://github.com/rk23/polyrev)*\n"@
}

/// Builds the criteria section.
fn criteria_exec(cs: &Vec<String>) -> (r: Vec<char>)
    ensures
        r@ == criteria_spec(cs@),
{
    let n = cs.len();
    if n == 0 {
        return chars_of("- [ ] Address finding\n- [ ] Add test coverage");
    }
    let mut out: Vec<char> = Vec::new();
    let mut i: usize = 0;
    while i < n
        invariant
            0 <= i <= n == cs@.len(),
            n >= 1,
            i > 0 ==> out@ == criteria_spec(cs@.take(i as int)),
            i == 0 ==> out@ == Seq::<char>::empty(),
        decreases n - i,
    {
        if i > 0 {
            out.push('\n');
        }
        let p = chars_of("- [ ] ");
        extend_chars(&mut out, &p);
        let c = string_chars(&cs[i]);
        extend_chars(&mut out, &c);
        i = i + 1;
        proof {
            let t = cs@.take(i as int);
            assert(t.drop_last() =~= cs@.take(i - 1));
            assert(t.last() == cs@[i - 1]);
            assert(out@ =~= criteria_spec(t));
        }
    }
    proof {
        assert(cs@.take(n as int) =~= cs@);
    }
    out
}

/// Builds the references section.
fn references_exec(rs: &Vec<String>) -> (r: Vec<char>)
    ensures
        r@ == references_spec(rs@),
{
    let n = rs.len();
    if n == 0 {
        return chars_of("N/A");
    }
    let mut out: Vec<char> = Vec::new();
    let mut i: usize = 0;
    while i < n
        invariant
            0 <= i <= n == rs@.len(),
            n >= 1,
            i > 0 ==> out@ == references_spec(rs@.take(i as int)),
            i == 0 ==> out@ == Seq::<char>::empty(),
        decreases n - i,
    {
        if i > 0 {
            out.push('\n');
        }
        let p = chars_of("- ");
        extend_chars(&mut out, &p);
        let c = string_chars(&rs[i]);
        extend_chars(&mut out, &c);
        i = i + 1;
        proof {
            let t = rs@.take(i as int);
            assert(t.drop_last() =~= rs@.take(i - 1));
            assert(t.last() == rs@[i - 1]);
            assert(out@ =~= references_spec(t));
        }
    }
    proof {
        assert(rs@.take(n as int) =~= rs@);
    }
    out
}

impl IssueCreator {
    /// A creator with this repository and policy.
    pub fn new(
        repo: Option<String>,
        dedupe: bool,
        dedupe_action: DedupeAction,
        labels: Vec<String>,
        assignees: Vec<String>,
    ) -> (r: Result<IssueCreator, GitHubError>)
        ensures
            r matches Ok(c) && c.repo == repo && c.dedupe == dedupe && c.dedupe_action
                == dedupe_action && c.labels == labels && c.assignees == assignees,
    {
        Ok(IssueCreator { repo, labels, assignees, dedupe, dedupe_action })
    }

    /// The issue title for a finding, per `title_spec`.
    pub fn format_title(&self, finding: &Finding) -> (r: String)
        ensures
            r@ == title_spec(finding),
    {
        let mut out = chars_of("[");
        let label = chars_of(finding.priority.label());
        extend_chars(&mut out, &label);
        let p = chars_of("] ");
        extend_chars(&mut out, &p);
        let title = string_chars(&finding.title);
        extend_chars(&mut out, &title);
        proof {
            assert(out@ =~= title_spec(finding));
        }
        string_of(&out)
    }

    /// The whole issue body for a finding, per `body_spec`.
    pub fn format_body(&self, finding: &Finding, reviewer_id: &str, fingerprint: &str) -> (r:
        String)
        ensures
            r@ == body_spec(finding, reviewer_id@, fingerprint@),
    {
        let mut out = chars_of("<!-- polyrev:fp:");
        let fp = chars_of(fingerprint);
        extend_chars(&mut out, &fp);
        let p1 = chars_of(" -->\n\n## Description\n\n");
        extend_chars(&mut out, &p1);
        let desc = string_chars(&finding.description);
        extend_chars(&mut out, &desc);
        let p2 = chars_of(
            "\n\n## Location\n\n| Field | Value |\n|-------|-------|\n| **File** | `",
        );
        extend_chars(&mut out, &p2);
        let file = string_chars(&finding.file);
        extend_chars(&mut out, &file);
        out.push(':');
        let line = u64_to_chars(finding.line as u64);
        extend_chars(&mut out, &line);
        let p3 = chars_of("` |\n| **Type** | `");
        extend_chars(&mut out, &p3);
        if finding.finding_type.as_str().is_empty() {
            let g = chars_of("general");
            extend_chars(&mut out, &g);
        } else {
            let t = string_chars(&finding.finding_type);
            extend_chars(&mut out, &t);
        }
        let p4 = chars_of("` |\n| **Unit** | `");
        extend_chars(&mut out, &p4);
        let rid = chars_of(reviewer_id);
        extend_chars(&mut out, &rid);
        let p5 = chars_of("` |\n| **Priority** | `");
        extend_chars(&mut out, &p5);
        let prio = chars_of(finding.priority.label());
        extend_chars(&mut out, &prio);
        let p6 = chars_of("` |\n\n## Code\n\n```\n");
        extend_chars(&mut out, &p6);
        match &finding.snippet {
            Some(s) => {
                let sn = string_chars(s);
                extend_chars(&mut out, &sn);
            },
            None => {
                let na = chars_of("N/A");
                extend_chars(&mut out, &na);
            },
        }
        let p7 = chars_of("\n```\n\n## Remediation\n\n");
        extend_chars(&mut out, &p7);
        let rem = string_chars(&finding.remediation);
        extend_chars(&mut out, &rem);
        let p8 = chars_of("\n\n## Acceptance Criteria\n\n");
        extend_chars(&mut out, &p8);
        let crit = criteria_exec(&finding.acceptance_criteria);
        extend_chars(&mut out, &crit);
        let p9 = chars_of("\n\n## References\n\n");
        extend_chars(&mut out, &p9);
        let refs = references_exec(&finding.references);
        extend_chars(&mut out, &refs);
        let p10 = chars_of("\n\n---\n*Generated by [polyrev](https://github.com/rk23/polyrev)*\n");
        extend_chars(&mut out, &p10);
        proof {
            assert(out@ =~= body_spec(finding, reviewer_id@, fingerprint@));
        }
        string_of(&out)
    }
}

} // verus!
