//! Rendering one unit's markdown report.
//!
//! Writing the file happens outside the library; the text itself — the
//! metric table, the per-finding sections with code, remediation,
//! criteria and references — is fixed here. The duration cell arrives
//! preformatted, since its seconds display is not computed in the
//! library.

use vstd::prelude::*;
use crate::config::Priority;
use crate::finding::Finding;
use crate::runner::{
    count_priority_in, count_priority_in_exec, lemma_count_priority_in_nonneg, format_status,
    format_status_spec, ReviewerResult,
};
use crate::text::{dec_digits, u64_to_chars, extend_chars};
use crate::strutil::{string_of, chars_of, string_chars, str_eq};
use crate::runner::FindingCounts;

verus! {

/// Checkbox lines, one per acceptance criterion.
pub open spec fn checklist_lines_spec(cs: Seq<String>) -> Seq<char>
    decreases cs.len(),
{
    if cs.len() == 0 {
        Seq::empty()
    } else {
        checklist_lines_spec(cs.drop_last()) + "- [ ] "@ + cs.last()@ + seq!['\n']
    }
}

/// Bullet lines, one per reference.
pub open spec fn bullet_lines_spec(rs: Seq<String>) -> Seq<char>
    decreases rs.len(),
{
    if rs.len() == 0 {
        Seq::empty()
    } else {
        bullet_lines_spec(rs.drop_last()) + "- "@ + rs.last()@ + seq!['\n']
    }
}

/// One finding's report section.
pub open spec fn finding_section_spec(f: Finding) -> Seq<char> {
    "### ["@ + f.priority.spec_label() + "] "@ + f.title@ + "\n\n"@ + (if f.line > 0 {
        "- **File:** `"@ + f.file@ + seq![':'] + dec_digits(f.line as int) + "`\n"@
    } else {
        "- **File:** `"@ + f.file@ + "`\n"@
    }) + (if f.finding_type@.len() != 0 {
        "- **Type:** `"@ + f.finding_type@ + "`\n"@
    } else {
        Seq::<char>::empty()
    }) + seq!['\n'] + f.description@ + "\n\n"@ + (match f.snippet {
        Some(s) => "**Code:**\n```\n"@ + s@ + "\n```\n\n"@,
        None => Seq::<char>::empty(),
    }) + "**Remediation:** "@ + f.remediation@ + "\n\n"@ + (if f.acceptance_criteria@.len() > 0 {
        "**Acceptance Criteria:**\n"@ + checklist_lines_spec(f.acceptance_criteria@) + seq!['\n']
    } else {
        Seq::<char>::empty()
    }) + (if f.references@.len() > 0 {
        "**References:**\n"@ + bullet_lines_spec(f.references@) + seq!['\n']
    } else {
        Seq::<char>::empty()
    }) + "---\n\n"@
}

/// The finding sections, in order.
pub open spec fn finding_sections_spec(fs: Seq<Finding>) -> Seq<char>
    decreases fs.len(),
{
    if fs.len() == 0 {
        Seq::empty()
    } else {
        finding_sections_spec(fs.drop_last()) + finding_section_spec(fs.last())
    }
}

/// The whole report of one unit: title, metric table with the status
/// line, duration cell and priority counts, then the findings (or the
/// no-findings note).
pub open spec fn unit_report_spec(result: ReviewerResult, duration_display: Seq<char>) -> Seq<
    char,
> {
    "# "@ + result.reviewer_name@ + "\n\n| Metric | Value |\n|--------|-------|\n| Status | "@
        + format_status_spec(result.status) + " |\n| Duration | "@ + duration_display
        + " |\n| Files Scanned | "@ + dec_digits(result.files_scanned as int)
        + " |\n| p0 (Critical) | "@ + dec_digits(count_priority_in(result.findings@, Priority::P0))
        + " |\n| p1 (High) | "@ + dec_digits(count_priority_in(result.findings@, Priority::P1))
        + " |\n| p2 (Medium) | "@ + dec_digits(count_priority_in(result.findings@, Priority::P2))
        + " |\n\n---\n\n"@ + (if result.findings@.len() == 0 {
        "*No findings*\n"@
    } else {
        "## Findings\n\n"@ + finding_sections_spec(result.findings@)
    })
}

/// Builds the checkbox lines of the criteria.
fn build_checklist(cs: &Vec<String>) -> (r: Vec<char>)
    ensures
        r@ == checklist_lines_spec(cs@),
{
    let n = cs.len();
    let mut out: Vec<char> = Vec::new();
    let mut i: usize = 0;
    proof {
        assert(cs@.take(0) =~= Seq::<String>::empty());
    }
    while i < n
        invariant
            0 <= i <= n == cs@.len(),
            out@ == checklist_lines_spec(cs@.take(i as int)),
        decreases n - i,
    {
        proof {
            assert(cs@.take(i + 1).drop_last() =~= cs@.take(i as int));
            assert(cs@.take(i + 1).last() == cs@[i as int]);
        }
        let p = chars_of("- [ ] ");
        extend_chars(&mut out, &p);
        let c = string_chars(&cs[i]);
        extend_chars(&mut out, &c);
        out.push('\n');
        i = i + 1;
        proof {
            assert(out@ =~= checklist_lines_spec(cs@.take(i as int)));
        }
    }
    proof {
        assert(cs@.take(n as int) =~= cs@);
    }
    out
}

/// Builds the bullet lines of the references.
fn build_bullets(rs: &Vec<String>) -> (r: Vec<char>)
    ensures
        r@ == bullet_lines_spec(rs@),
{
    let n = rs.len();
    let mut out: Vec<char> = Vec::new();
    let mut i: usize = 0;
    proof {
        assert(rs@.take(0) =~= Seq::<String>::empty());
    }
    while i < n
        invariant
            0 <= i <= n == rs@.len(),
            out@ == bullet_lines_spec(rs@.take(i as int)),
        decreases n - i,
    {
        proof {
            assert(rs@.take(i + 1).drop_last() =~= rs@.take(i as int));
            assert(rs@.take(i + 1).last() == rs@[i as int]);
        }
        let p = chars_of("- ");
        extend_chars(&mut out, &p);
        let c = string_chars(&rs[i]);
        extend_chars(&mut out, &c);
        out.push('\n');
        i = i + 1;
        proof {
            assert(out@ =~= bullet_lines_spec(rs@.take(i as int)));
        }
    }
    proof {
        assert(rs@.take(n as int) =~= rs@);
    }
    out
}

/// Builds one finding's section, per `finding_section_spec`.
#[verifier::rlimit(100)]
fn build_finding_section(f: &Finding) -> (r: Vec<char>)
    ensures
        r@ == finding_section_spec(*f),
{
    let mut out = chars_of("### [");
    let label = chars_of(f.priority.label());
    extend_chars(&mut out, &label);
    let p1 = chars_of("] ");
    extend_chars(&mut out, &p1);
    let title = string_chars(&f.title);
    extend_chars(&mut out, &title);
    let p2 = chars_of("\n\n");
    extend_chars(&mut out, &p2);
    let file_open = chars_of("- **File:** `");
    extend_chars(&mut out, &file_open);
    let file = string_chars(&f.file);
    extend_chars(&mut out, &file);
    if f.line > 0 {
        out.push(':');
        let line = u64_to_chars(f.line as u64);
        extend_chars(&mut out, &line);
    }
    let file_close = chars_of("`\n");
    extend_chars(&mut out, &file_close);
    if !f.finding_type.as_str().is_empty() {
        let t1 = chars_of("- **Type:** `");
        extend_chars(&mut out, &t1);
        let t = string_chars(&f.finding_type);
        extend_chars(&mut out, &t);
        let t2 = chars_of("`\n");
        extend_chars(&mut out, &t2);
    }
    out.push('\n');
    let desc = string_chars(&f.description);
    extend_chars(&mut out, &desc);
    let p3 = chars_of("\n\n");
    extend_chars(&mut out, &p3);
    match &f.snippet {
        Some(s) => {
            let c1 = chars_of("**Code:**\n```\n");
            extend_chars(&mut out, &c1);
            let sn = string_chars(s);
            extend_chars(&mut out, &sn);
            let c2 = chars_of("\n```\n\n");
            extend_chars(&mut out, &c2);
        },
        None => {},
    }
    let r1 = chars_of("**Remediation:** ");
    extend_chars(&mut out, &r1);
    let rem = string_chars(&f.remediation);
    extend_chars(&mut out, &rem);
    let r2 = chars_of("\n\n");
    extend_chars(&mut out, &r2);
    if f.acceptance_criteria.len() > 0 {
        let a1 = chars_of("**Acceptance Criteria:**\n");
        extend_chars(&mut out, &a1);
        let list = build_checklist(&f.acceptance_criteria);
        extend_chars(&mut out, &list);
        out.push('\n');
    }
    if f.references.len() > 0 {
        let b1 = chars_of("**References:**\n");
        extend_chars(&mut out, &b1);
        let list = build_bullets(&f.references);
        extend_chars(&mut out, &list);
        out.push('\n');
    }
    let tail = chars_of("---\n\n");
    extend_chars(&mut out, &tail);
    proof {
        assert(out@ =~= finding_section_spec(*f));
    }
    out
}

/// Renders one unit's whole report, per `unit_report_spec`.
pub fn render_unit_report(result: &ReviewerResult, duration_display: &str) -> (r: String)
    ensures
        r@ == unit_report_spec(*result, duration_display@),
{
    proof {
        lemma_count_priority_in_nonneg(result.findings@, Priority::P0);
        lemma_count_priority_in_nonneg(result.findings@, Priority::P1);
        lemma_count_priority_in_nonneg(result.findings@, Priority::P2);
    }
    let mut out = chars_of("# ");
    let name = string_chars(&result.reviewer_name);
    extend_chars(&mut out, &name);
    let h1 = chars_of("\n\n| Metric | Value |\n|--------|-------|\n| Status | ");
    extend_chars(&mut out, &h1);
    let status = format_status(&result.status);
    let status_chars = string_chars(&status);
    extend_chars(&mut out, &status_chars);
    let h2 = chars_of(" |\n| Duration | ");
    extend_chars(&mut out, &h2);
    let dur = chars_of(duration_display);
    extend_chars(&mut out, &dur);
    let h3 = chars_of(" |\n| Files Scanned | ");
    extend_chars(&mut out, &h3);
    let scanned = u64_to_chars(result.files_scanned as u64);
    extend_chars(&mut out, &scanned);
    let h4 = chars_of(" |\n| p0 (Critical) | ");
    extend_chars(&mut out, &h4);
    let p0 = u64_to_chars(count_priority_in_exec(&result.findings, Priority::P0) as u64);
    extend_chars(&mut out, &p0);
    let h5 = chars_of(" |\n| p1 (High) | ");
    extend_chars(&mut out, &h5);
    let p1 = u64_to_chars(count_priority_in_exec(&result.findings, Priority::P1) as u64);
    extend_chars(&mut out, &p1);
    let h6 = chars_of(" |\n| p2 (Medium) | ");
    extend_chars(&mut out, &h6);
    let p2 = u64_to_chars(count_priority_in_exec(&result.findings, Priority::P2) as u64);
    extend_chars(&mut out, &p2);
    let h7 = chars_of(" |\n\n---\n\n");
    extend_chars(&mut out, &h7);
    let n = result.findings.len();
    if n == 0 {
        let none = chars_of("*No findings*\n");
        extend_chars(&mut out, &none);
        proof {
            assert(out@ =~= unit_report_spec(*result, duration_display@));
        }
        return string_of(&out);
    }
    let f1 = chars_of("## Findings\n\n");
    extend_chars(&mut out, &f1);
    let ghost prefix = out@;
    let mut i: usize = 0;
    proof {
        assert(result.findings@.take(0) =~= Seq::<Finding>::empty());
    }
    while i < n
        invariant
            0 <= i <= n == result.findings@.len(),
            out@ == prefix + finding_sections_spec(result.findings@.take(i as int)),
        decreases n - i,
    {
        proof {
            assert(result.findings@.take(i + 1).drop_last() =~= result.findings@.take(i as int));
            assert(result.findings@.take(i + 1).last() == result.findings@[i as int]);
        }
        let section = build_finding_section(&result.findings[i]);
        extend_chars(&mut out, &section);
        i = i + 1;
        proof {
            assert(out@ =~= prefix + finding_sections_spec(result.findings@.take(i as int)));
        }
    }
    proof {
        assert(result.findings@.take(n as int) =~= result.findings@);
        assert(out@ =~= unit_report_spec(*result, duration_display@));
    }
    string_of(&out)
}

/// One unit's row of the run summary.
#[derive(Debug, Clone)]
pub struct SummaryEntry {
    pub name: String,
    /// The status word: `completed`, `skipped`, `timed_out` or `failed`.
    pub status_word: String,
    /// The skip reason or failure error, when there is one.
    pub reason: Option<String>,
    pub counts: FindingCounts,
}

/// The icon shown before a status word; unknown words get a question
/// mark.
pub open spec fn status_icon_spec(word: Seq<char>) -> Seq<char> {
    if word == "completed"@ {
        "✅"@
    } else if word == "skipped"@ {
        "⏭️"@
    } else if word == "timed_out"@ {
        "⏱️"@
    } else if word == "failed"@ {
        "❌"@
    } else {
        "❓"@
    }
}

/// A summary row's status cell: icon, word, and the reason in
/// parentheses when there is one.
pub open spec fn status_cell_spec(word: Seq<char>, reason: Option<String>) -> Seq<char> {
    status_icon_spec(word) + seq![' '] + word + (match reason {
        Some(r) => " ("@ + r@ + ")"@,
        None => Seq::<char>::empty(),
    })
}

/// A summary row's findings cell: the three priority counts.
pub open spec fn findings_cell_spec(c: FindingCounts) -> Seq<char> {
    dec_digits(c.p0 as int) + " p0, "@ + dec_digits(c.p1 as int) + " p1, "@ + dec_digits(
        c.p2 as int,
    ) + " p2"@
}

/// One summary table row.
pub open spec fn summary_row_spec(e: SummaryEntry) -> Seq<char> {
    "| "@ + e.name@ + " | "@ + status_cell_spec(e.status_word@, e.reason) + " | "@
        + findings_cell_spec(e.counts) + " |\n"@
}

/// The summary table rows, in order.
pub open spec fn summary_rows_spec(entries: Seq<SummaryEntry>) -> Seq<char>
    decreases entries.len(),
{
    if entries.len() == 0 {
        Seq::empty()
    } else {
        summary_rows_spec(entries.drop_last()) + summary_row_spec(entries.last())
    }
}

/// The whole run summary in markdown: header facts, the totals table,
/// one row per unit, and a critical-findings note when any P0 finding
/// exists. The timestamp and duration cells arrive preformatted.
pub open spec fn summary_md_spec(
    timestamp: Seq<char>,
    target: Seq<char>,
    report_dir: Seq<char>,
    duration_display: Seq<char>,
    entries: Seq<SummaryEntry>,
    totals: FindingCounts,
) -> Seq<char> {
    "# polyrev Summary\n\n**Generated:** "@ + timestamp + "\n**Target:** "@ + target
        + "\n**Report Dir:** "@ + report_dir + "\n**Duration:** "@ + duration_display
        + "\n\n## Totals\n\n| Priority | Count |\n|----------|-------|\n| p0 (Critical) | "@
        + dec_digits(totals.p0 as int) + " |\n| p1 (High) | "@ + dec_digits(totals.p1 as int)
        + " |\n| p2 (Medium) | "@ + dec_digits(totals.p2 as int)
        + " |\n\n## Units\n\n| Unit | Status | Findings |\n|----------|--------|----------|\n"@
        + summary_rows_spec(entries) + (if totals.p0 > 0 {
        "\n## Critical Findings (p0)\n\nSee the individual unit reports for details.\n"@
    } else {
        Seq::<char>::empty()
    })
}

/// Builds one summary row, per `summary_row_spec`.
fn build_summary_row(e: &SummaryEntry) -> (r: Vec<char>)
    ensures
        r@ == summary_row_spec(*e),
{
    let mut out = chars_of("| ");
    let name = string_chars(&e.name);
    extend_chars(&mut out, &name);
    let p1 = chars_of(" | ");
    extend_chars(&mut out, &p1);
    let icon: &str = if str_eq(e.status_word.as_str(), "completed") {
        "✅"
    } else if str_eq(e.status_word.as_str(), "skipped") {
        "⏭️"
    } else if str_eq(e.status_word.as_str(), "timed_out") {
        "⏱️"
    } else if str_eq(e.status_word.as_str(), "failed") {
        "❌"
    } else {
        "❓"
    };
    let icon_chars = chars_of(icon);
    proof {
        assert(icon_chars@ == status_icon_spec(e.status_word@));
    }
    extend_chars(&mut out, &icon_chars);
    out.push(' ');
    let word = string_chars(&e.status_word);
    extend_chars(&mut out, &word);
    match &e.reason {
        Some(reason) => {
            let r1 = chars_of(" (");
            extend_chars(&mut out, &r1);
            let rs = string_chars(reason);
            extend_chars(&mut out, &rs);
            let r2 = chars_of(")");
            extend_chars(&mut out, &r2);
        },
        None => {},
    }
    let p2 = chars_of(" | ");
    extend_chars(&mut out, &p2);
    let c0 = u64_to_chars(e.counts.p0 as u64);
    extend_chars(&mut out, &c0);
    let s0 = chars_of(" p0, ");
    extend_chars(&mut out, &s0);
    let c1 = u64_to_chars(e.counts.p1 as u64);
    extend_chars(&mut out, &c1);
    let s1 = chars_of(" p1, ");
    extend_chars(&mut out, &s1);
    let c2 = u64_to_chars(e.counts.p2 as u64);
    extend_chars(&mut out, &c2);
    let s2 = chars_of(" p2");
    extend_chars(&mut out, &s2);
    let close = chars_of(" |\n");
    extend_chars(&mut out, &close);
    proof {
        assert(out@ =~= summary_row_spec(*e));
    }
    out
}

/// Renders the run summary markdown, per `summary_md_spec`.
pub fn render_summary_markdown(
    timestamp: &str,
    target: &str,
    report_dir: &str,
    duration_display: &str,
    entries: &Vec<SummaryEntry>,
    totals: FindingCounts,
) -> (r: String)
    ensures
        r@ == summary_md_spec(
            timestamp@,
            target@,
            report_dir@,
            duration_display@,
            entries@,
            totals,
        ),
{
    let mut out = chars_of("# polyrev Summary\n\n**Generated:** ");
    let ts = chars_of(timestamp);
    extend_chars(&mut out, &ts);
    let p1 = chars_of("\n**Target:** ");
    extend_chars(&mut out, &p1);
    let tg = chars_of(target);
    extend_chars(&mut out, &tg);
    let p2 = chars_of("\n**Report Dir:** ");
    extend_chars(&mut out, &p2);
    let rd = chars_of(report_dir);
    extend_chars(&mut out, &rd);
    let p3 = chars_of("\n**Duration:** ");
    extend_chars(&mut out, &p3);
    let dur = chars_of(duration_display);
    extend_chars(&mut out, &dur);
    let p4 = chars_of(
        "\n\n## Totals\n\n| Priority | Count |\n|----------|-------|\n| p0 (Critical) | ",
    );
    extend_chars(&mut out, &p4);
    let t0 = u64_to_chars(totals.p0 as u64);
    extend_chars(&mut out, &t0);
    let p5 = chars_of(" |\n| p1 (High) | ");
    extend_chars(&mut out, &p5);
    let t1 = u64_to_chars(totals.p1 as u64);
    extend_chars(&mut out, &t1);
    let p6 = chars_of(" |\n| p2 (Medium) | ");
    extend_chars(&mut out, &p6);
    let t2 = u64_to_chars(totals.p2 as u64);
    extend_chars(&mut out, &t2);
    let p7 = chars_of(
        " |\n\n## Units\n\n| Unit | Status | Findings |\n|----------|--------|----------|\n",
    );
    extend_chars(&mut out, &p7);
    let n = entries.len();
    let ghost prefix = out@;
    let mut i: usize = 0;
    proof {
        assert(entries@.take(0) =~= Seq::<SummaryEntry>::empty());
    }
    while i < n
        invariant
            0 <= i <= n == entries@.len(),
            out@ == prefix + summary_rows_spec(entries@.take(i as int)),
        decreases n - i,
    {
        proof {
            assert(entries@.take(i + 1).drop_last() =~= entries@.take(i as int));
            assert(entries@.take(i + 1).last() == entries@[i as int]);
        }
        let row = build_summary_row(&entries[i]);
        extend_chars(&mut out, &row);
        i = i + 1;
        proof {
            assert(out@ =~= prefix + summary_rows_spec(entries@.take(i as int)));
        }
    }
    proof {
        assert(entries@.take(n as int) =~= entries@);
    }
    if totals.p0 > 0 {
        let tail = chars_of(
            "\n## Critical Findings (p0)\n\nSee the individual unit reports for details.\n",
        );
        extend_chars(&mut out, &tail);
    }
    proof {
        assert(out@ =~= summary_md_spec(
            timestamp@,
            target@,
            report_dir@,
            duration_display@,
            entries@,
            totals,
        ));
    }
    string_of(&out)
}

} // verus!
