//! Analysis-run bookkeeping: which units a run selects, when a unit is
//! skipped before launch, the chunk-session decisions of a multi-chunk
//! unit, the status a unit ends with, and the aggregate finding counts.
//!
//! The scheduler's asynchronous loop — permits, pacing delays, process
//! waits — lives outside the library and consults these functions for
//! every decision it takes.

use vstd::prelude::*;
use crate::config::{Priority, Provider, Reviewer};
use crate::finding::Finding;
use crate::text::{dec_digits, u64_to_chars, extend_chars};
use crate::strutil::{string_of, chars_of, str_eq};

verus! {

/// Options of one analysis run.
#[derive(Debug, Clone)]
pub struct RunOptions {
    pub reviewer_filter: Option<Vec<String>>,
    pub scope_filter: Option<Vec<String>>,
    pub diff_base: Option<String>,
    pub dry_run: bool,
    pub force: bool,
}

/// How one unit unit ended.
#[derive(Debug, Clone)]
pub enum ReviewerStatus {
    Completed,
    Skipped { reason: String },
    TimedOut,
    Failed { error: String },
}

/// One unit's result: created once per unit per run, never mutated.
#[derive(Debug, Clone)]
pub struct ReviewerResult {
    pub reviewer_id: String,
    pub reviewer_name: String,
    pub status: ReviewerStatus,
    pub files_scanned: usize,
    pub findings: Vec<Finding>,
    pub duration_ms: u64,
}

/// The whole run's results.
#[derive(Debug, Clone)]
pub struct RunReport {
    pub reviewer_results: Vec<ReviewerResult>,
    pub total_duration_ms: u64,
}

/// Finding counts by priority.
#[derive(Debug, Clone, Copy, PartialEq, Eq, Structural)]
pub struct FindingCounts {
    pub p0: usize,
    pub p1: usize,
    pub p2: usize,
}

/// How many findings of `s` have priority `p`.
pub open spec fn count_priority_in(s: Seq<Finding>, p: Priority) -> int
    decreases s.len(),
{
    if s.len() == 0 {
        0
    } else {
        count_priority_in(s.drop_last(), p) + if s.last().priority == p {
            1int
        } else {
            0int
        }
    }
}

/// How many findings across all results have priority `p`.
pub open spec fn count_priority(results: Seq<ReviewerResult>, p: Priority) -> int
    decreases results.len(),
{
    if results.len() == 0 {
        0
    } else {
        count_priority(results.drop_last(), p) + count_priority_in(results.last().findings@, p)
    }
}

pub(crate) proof fn lemma_count_priority_in_nonneg(s: Seq<Finding>, p: Priority)
    ensures
        0 <= count_priority_in(s, p) <= s.len(),
    decreases s.len(),
{
    if s.len() > 0 {
        lemma_count_priority_in_nonneg(s.drop_last(), p);
    }
}

/// Counts the findings of `s` with priority `p`.
pub(crate) fn count_priority_in_exec(s: &Vec<Finding>, p: Priority) -> (r: usize)
    ensures
        r as int == count_priority_in(s@, p),
{
    let n = s.len();
    let mut acc: usize = 0;
    let mut i: usize = 0;
    proof {
        assert(s@.take(0) =~= Seq::<Finding>::empty());
    }
    while i < n
        invariant
            0 <= i <= n == s@.len(),
            acc as int == count_priority_in(s@.take(i as int), p),
            acc <= i,
        decreases n - i,
    {
        proof {
            assert(s@.take(i + 1).drop_last() =~= s@.take(i as int));
            assert(s@.take(i + 1).last() == s@[i as int]);
        }
        if matches_priority(&s[i].priority, p) {
            acc = acc + 1;
        }
        i = i + 1;
    }
    proof {
        assert(s@.take(n as int) =~= s@);
    }
    acc
}

/// Whether two priorities are equal.
fn matches_priority(a: &Priority, b: Priority) -> (r: bool)
    ensures
        r == (*a == b),
{
    match (a, b) {
        (Priority::P0, Priority::P0) => true,
        (Priority::P1, Priority::P1) => true,
        (Priority::P2, Priority::P2) => true,
        _ => false,
    }
}

impl RunReport {
    /// Totals the findings of every unit result by priority; each count
    /// saturates at the machine limit rather than overflowing.
    pub fn totals(&self) -> (r: FindingCounts)
        ensures
            count_priority(self.reviewer_results@, Priority::P0) <= usize::MAX ==> r.p0 as int
                == count_priority(self.reviewer_results@, Priority::P0),
            count_priority(self.reviewer_results@, Priority::P1) <= usize::MAX ==> r.p1 as int
                == count_priority(self.reviewer_results@, Priority::P1),
            count_priority(self.reviewer_results@, Priority::P2) <= usize::MAX ==> r.p2 as int
                == count_priority(self.reviewer_results@, Priority::P2),
    {
        let p0 = count_priority_exec(&self.reviewer_results, Priority::P0);
        let p1 = count_priority_exec(&self.reviewer_results, Priority::P1);
        let p2 = count_priority_exec(&self.reviewer_results, Priority::P2);
        FindingCounts { p0, p1, p2 }
    }
}

/// Counts findings with priority `p` across all results; exact whenever
/// the total fits the machine limit.
fn count_priority_exec(results: &Vec<ReviewerResult>, p: Priority) -> (r: usize)
    ensures
        count_priority(results@, p) <= usize::MAX ==> r as int == count_priority(results@, p),
{
    let n = results.len();
    let mut acc: usize = 0;
    let mut i: usize = 0;
    let mut saturated = false;
    proof {
        assert(results@.take(0) =~= Seq::<ReviewerResult>::empty());
    }
    while i < n
        invariant
            0 <= i <= n == results@.len(),
            !saturated ==> acc as int == count_priority(results@.take(i as int), p),
            saturated ==> count_priority(results@.take(i as int), p) > usize::MAX,
        decreases n - i,
    {
        proof {
            assert(results@.take(i + 1).drop_last() =~= results@.take(i as int));
            assert(results@.take(i + 1).last() == results@[i as int]);
            lemma_count_priority_in_nonneg(results@[i as int].findings@, p);
        }
        let c = count_priority_in_exec(&results[i].findings, p);
        if !saturated {
            if acc <= usize::MAX - c {
                acc = acc + c;
            } else {
                saturated = true;
            }
        }
        i = i + 1;
    }
    proof {
        assert(results@.take(n as int) =~= results@);
    }
    acc
}

/// The file list of a chunk prompt: `- path` lines joined by newlines.
pub open spec fn file_list_spec(files: Seq<String>) -> Seq<char>
    decreases files.len(),
{
    if files.len() == 0 {
        Seq::empty()
    } else if files.len() == 1 {
        "- "@ + files[0]@
    } else {
        file_list_spec(files.drop_last()) + seq!['\n'] + "- "@ + files.last()@
    }
}

/// The prompt of one chunk. A single-chunk unit gets the base prompt
/// unchanged. The final chunk of a multi-chunk unit asks for findings;
/// every earlier chunk instructs the provider to only acknowledge
/// receipt, so a large file set is indexed across calls and analyzed once.
pub open spec fn chunk_prompt_spec(
    base: Seq<char>,
    chunk_idx: int,
    total: int,
    files: Seq<String>,
) -> Seq<char> {
    if total == 1 {
        base
    } else if chunk_idx + 1 == total {
        base + "\n\n---\n\n**[CHUNKED ANALYSIS: "@ + dec_digits(chunk_idx + 1) + "/"@ + dec_digits(
            total,
        ) + " - FINAL CHUNK]**\n\nYou have now received ALL files across "@ + dec_digits(total)
            + " chunks. Analyze ALL files from ALL chunks together and output your findings as JSON.\n\nFiles in this final chunk:\n"@
            + file_list_spec(files)
    } else {
        base + "\n\n---\n\n**[CHUNKED ANALYSIS: "@ + dec_digits(chunk_idx + 1) + "/"@ + dec_digits(
            total,
        ) + " - ACCUMULATING]**\n\nThis review is split into "@ + dec_digits(total)
            + " chunks. Read and index these files. Do NOT output findings yet - wait for the final chunk.\n\nReply ONLY with: `Chunk "@
            + dec_digits(chunk_idx + 1) + "/"@ + dec_digits(total) + " received. "@ + dec_digits(
            files.len() as int,
        ) + " files indexed.`\n\nFiles in this chunk:\n"@ + file_list_spec(files)
    }
}

/// Builds the `- path` file list of a chunk prompt.
fn file_list_exec(files: &Vec<String>) -> (r: Vec<char>)
    ensures
        r@ == file_list_spec(files@),
{
    let n = files.len();
    let mut out: Vec<char> = Vec::new();
    let mut i: usize = 0;
    proof {
        assert(files@.take(0) =~= Seq::<String>::empty());
    }
    while i < n
        invariant
            0 <= i <= n == files@.len(),
            out@ == file_list_spec(files@.take(i as int)),
        decreases n - i,
    {
        if i > 0 {
            out.push('\n');
        }
        let dash = chars_of("- ");
        extend_chars(&mut out, &dash);
        let f = crate::strutil::string_chars(&files[i]);
        extend_chars(&mut out, &f);
        i = i + 1;
        proof {
            let t = files@.take(i as int);
            assert(t.drop_last() =~= files@.take(i - 1));
            assert(t.last() == files@[i - 1]);
            if i == 1 {
                assert(out@ =~= file_list_spec(t));
            } else {
                assert(out@ =~= file_list_spec(t));
            }
        }
    }
    proof {
        assert(files@.take(n as int) =~= files@);
    }
    out
}

/// Builds the prompt of one chunk, per `chunk_prompt_spec`.
pub fn build_chunk_prompt(base_prompt: &str, chunk_idx: usize, total_chunks: usize, files: &Vec<
    String,
>) -> (r: String)
    requires
        chunk_idx < total_chunks,
        total_chunks <= u64::MAX,
        files@.len() <= u64::MAX,
    ensures
        r@ == chunk_prompt_spec(base_prompt@, chunk_idx as int, total_chunks as int, files@),
{
    if total_chunks == 1 {
        return string_of(&chars_of(base_prompt));
    }
    let mut out = chars_of(base_prompt);
    let list = file_list_exec(files);
    let num = u64_to_chars((chunk_idx + 1) as u64);
    let tot = u64_to_chars(total_chunks as u64);
    if chunk_idx + 1 == total_chunks {
        let p1 = chars_of("\n\n---\n\n**[CHUNKED ANALYSIS: ");
        extend_chars(&mut out, &p1);
        extend_chars(&mut out, &num);
        let slash = chars_of("/");
        extend_chars(&mut out, &slash);
        extend_chars(&mut out, &tot);
        let p2 = chars_of(" - FINAL CHUNK]**\n\nYou have now received ALL files across ");
        extend_chars(&mut out, &p2);
        extend_chars(&mut out, &tot);
        let p3 = chars_of(
            " chunks. Analyze ALL files from ALL chunks together and output your findings as JSON.\n\nFiles in this final chunk:\n",
        );
        extend_chars(&mut out, &p3);
        extend_chars(&mut out, &list);
        proof {
            assert(out@ =~= chunk_prompt_spec(
                base_prompt@,
                chunk_idx as int,
                total_chunks as int,
                files@,
            ));
        }
        string_of(&out)
    } else {
        let p1 = chars_of("\n\n---\n\n**[CHUNKED ANALYSIS: ");
        extend_chars(&mut out, &p1);
        extend_chars(&mut out, &num);
        let slash = chars_of("/");
        extend_chars(&mut out, &slash);
        extend_chars(&mut out, &tot);
        let p2 = chars_of(" - ACCUMULATING]**\n\nThis review is split into ");
        extend_chars(&mut out, &p2);
        extend_chars(&mut out, &tot);
        let p3 = chars_of(
            " chunks. Read and index these files. Do NOT output findings yet - wait for the final chunk.\n\nReply ONLY with: `Chunk ",
        );
        extend_chars(&mut out, &p3);
        extend_chars(&mut out, &num);
        extend_chars(&mut out, &slash);
        extend_chars(&mut out, &tot);
        let p4 = chars_of(" received. ");
        extend_chars(&mut out, &p4);
        let cnt = u64_to_chars(files.len() as u64);
        extend_chars(&mut out, &cnt);
        let p5 = chars_of(" files indexed.`\n\nFiles in this chunk:\n");
        extend_chars(&mut out, &p5);
        extend_chars(&mut out, &list);
        proof {
            assert(out@ =~= chunk_prompt_spec(
                base_prompt@,
                chunk_idx as int,
                total_chunks as int,
                files@,
            ));
        }
        string_of(&out)
    }
}

/// Relies on `uuid::Uuid::new_v4` and its hyphenated text form: a fresh
/// random identifier, 36 characters long. Nothing else is assumed of the
/// value.
#[verifier::external_body]
fn new_session_id() -> (r: String)
    ensures
        r@.len() == 36,
{
    uuid::Uuid::new_v4().to_string()
}

/// The session id a unit starts with: only a multi-chunk unit on the
/// provider that takes caller-supplied session ids gets one minted up
/// front; the other provider mints its own on the first call.
pub fn initial_session_id(provider: &Provider, total_chunks: usize) -> (r: Option<String>)
    ensures
        r is Some <==> (*provider == Provider::ClaudeCli && total_chunks > 1),
        r matches Some(s) ==> s@.len() == 36,
{
    match provider {
        Provider::ClaudeCli => {
            if total_chunks > 1 {
                Some(new_session_id())
            } else {
                None
            }
        },
        Provider::CodexCli => None,
    }
}

/// The session handle of one chunk: present exactly when the unit holds a
/// session id, resuming for every chunk after the first.
pub fn session_info_for_chunk(session_id: &Option<String>, chunk_idx: usize) -> (r: Option<
    crate::provider::SessionInfo,
>)
    ensures
        r is Some <==> session_id is Some,
        match r {
            Some(si) => (match session_id {
                Some(sid) => si.session_id matches Some(s2) && s2@ == sid@,
                None => false,
            }) && si.is_resume == (chunk_idx > 0),
            None => true,
        },
{
    match session_id {
        Some(sid) => Some(
            crate::provider::SessionInfo { session_id: Some(sid.clone()), is_resume: chunk_idx > 0 },
        ),
        None => None,
    }
}

/// Adopts a provider-minted session id: a unit that already owns one
/// keeps it; otherwise whatever the provider returned (possibly nothing)
/// is taken for the following chunks.
pub fn adopt_session_id(current: &mut Option<String>, provided: &Option<String>)
    ensures
        match *old(current) {
            Some(s) => *final(current) matches Some(f) && f@ == s@,
            None => match provided {
                Some(p) => *final(current) matches Some(f) && f@ == p@,
                None => *final(current) is None,
            },
        },
{
    if current.is_none() {
        match provided {
            Some(p) => {
                *current = Some(p.clone());
            },
            None => {},
        }
    }
}

/// Whether the remaining chunks are abandoned after a failed chunk: a
/// failure before the final chunk of a multi-chunk unit breaks the
/// session chain, so the rest is not attempted.
pub fn abort_remaining_chunks(total_chunks: usize, chunk_idx: usize) -> (r: bool)
    ensures
        r == (total_chunks > 1 && chunk_idx < total_chunks - 1),
{
    total_chunks > 1 && chunk_idx < total_chunks - 1
}

/// Whether a unit is skipped for freshness: it ran within the window and
/// a re-run was not forced.
pub fn should_skip_fresh(force: bool, ran_recently: bool) -> (r: bool)
    ensures
        r == (!force && ran_recently),
{
    !force && ran_recently
}

/// The status a unit ends with, from its chunk tally: no successful chunk
/// is total failure (the last error, or a fixed message when no chunk ran);
/// a partial failure reports how many chunks failed; otherwise the unit
/// completed.
pub fn unit_status(chunk_successes: usize, chunk_failures: usize, last_error: &Option<String>)
    -> (r: ReviewerStatus)
    requires
        chunk_successes + chunk_failures <= u64::MAX,
    ensures
        chunk_successes == 0 ==> (r matches ReviewerStatus::Failed { error } && error@ == (
        match last_error {
            Some(e) => e@,
            None => "all chunks failed"@,
        })),
        chunk_successes > 0 && chunk_failures > 0 ==> (r matches ReviewerStatus::Failed { error }
            && error@ == dec_digits(chunk_failures as int) + " of "@ + dec_digits(
            chunk_failures + chunk_successes,
        ) + " chunks failed; partial results returned"@),
        chunk_successes > 0 && chunk_failures == 0 ==> r is Completed,
{
    if chunk_successes == 0 {
        let error = match last_error {
            Some(e) => e.clone(),
            None => string_of(&chars_of("all chunks failed")),
        };
        ReviewerStatus::Failed { error }
    } else if chunk_failures > 0 {
        let mut msg = u64_to_chars(chunk_failures as u64);
        let p1 = chars_of(" of ");
        extend_chars(&mut msg, &p1);
        let total = u64_to_chars(chunk_failures as u64 + chunk_successes as u64);
        extend_chars(&mut msg, &total);
        let p2 = chars_of(" chunks failed; partial results returned");
        extend_chars(&mut msg, &p2);
        ReviewerStatus::Failed { error: string_of(&msg) }
    } else {
        ReviewerStatus::Completed
    }
}

/// A unit result for a skipped unit: no files scanned, no findings.
pub fn skipped_result(reviewer_id: &str, reviewer_name: &str, reason: &str, duration_ms: u64)
    -> (r: ReviewerResult)
    ensures
        r.reviewer_id@ == reviewer_id@,
        r.reviewer_name@ == reviewer_name@,
        r.status matches ReviewerStatus::Skipped { reason: why } && why@ == reason@,
        r.files_scanned == 0,
        r.findings@.len() == 0,
        r.duration_ms == duration_ms,
{
    ReviewerResult {
        reviewer_id: string_of(&chars_of(reviewer_id)),
        reviewer_name: string_of(&chars_of(reviewer_name)),
        status: ReviewerStatus::Skipped { reason: string_of(&chars_of(reason)) },
        files_scanned: 0,
        findings: Vec::new(),
        duration_ms,
    }
}

/// Whether the list holds this string.
pub open spec fn contains_str(list: Seq<String>, s: Seq<char>) -> bool {
    exists|i: int| 0 <= i < list.len() && list[i]@ == s
}

/// Tests `contains_str`.
pub fn contains_str_exec(list: &Vec<String>, s: &str) -> (r: bool)
    ensures
        r == contains_str(list@, s@),
{
    let n = list.len();
    let mut i: usize = 0;
    while i < n
        invariant
            0 <= i <= n == list@.len(),
            forall|k: int| 0 <= k < i ==> list@[k]@ != s@,
        decreases n - i,
    {
        if str_eq(list[i].as_str(), s) {
            return true;
        }
        i = i + 1;
    }
    false
}

/// Whether a run selects this unit: it is enabled, passes the
/// unit id filter when one is given, and shares a scope with the
/// scope filter when one is given.
pub open spec fn reviewer_selected(
    r: Reviewer,
    reviewer_filter: Option<Vec<String>>,
    scope_filter: Option<Vec<String>>,
) -> bool {
    &&& r.enabled
    &&& match reviewer_filter {
        Some(f) => contains_str(f@, r.id@),
        None => true,
    }
    &&& match scope_filter {
        Some(f) => exists|j: int| 0 <= j < r.scopes@.len() && contains_str(f@, r.scopes@[j]@),
        None => true,
    }
}

/// Tests `unit_selected`.
pub fn reviewer_selected_exec(
    r: &Reviewer,
    reviewer_filter: &Option<Vec<String>>,
    scope_filter: &Option<Vec<String>>,
) -> (b: bool)
    ensures
        b == reviewer_selected(*r, *reviewer_filter, *scope_filter),
{
    if !r.enabled {
        return false;
    }
    match reviewer_filter {
        Some(f) => {
            if !contains_str_exec(f, r.id.as_str()) {
                return false;
            }
        },
        None => {},
    }
    match scope_filter {
        Some(f) => {
            let ns = r.scopes.len();
            let mut j: usize = 0;
            while j < ns
                invariant
                    0 <= j <= ns == r.scopes@.len(),
                    r.enabled,
                    match reviewer_filter {
                        Some(f2) => contains_str(f2@, r.id@),
                        None => true,
                    },
                    scope_filter matches Some(ff) && ff@ == f@,
                    forall|m: int| 0 <= m < j ==> !contains_str(f@, r.scopes@[m]@),
                decreases ns - j,
            {
                if contains_str_exec(f, r.scopes[j].as_str()) {
                    proof {
                        assert(contains_str(f@, r.scopes@[j as int]@));
                    }
                    return true;
                }
                j = j + 1;
            }
            false
        },
        None => true,
    }
}

/// The positions of the units a run selects, in order.
pub fn selected_reviewer_indices(reviewers: &Vec<Reviewer>, options: &RunOptions) -> (r: Vec<
    usize,
>)
    ensures
        forall|k: int|
            0 <= k < r@.len() ==> (r@[k] as int) < reviewers@.len() && reviewer_selected(
                reviewers@[r@[k] as int],
                options.reviewer_filter,
                options.scope_filter,
            ),
        forall|k1: int, k2: int| 0 <= k1 < k2 < r@.len() ==> r@[k1] < r@[k2],
        forall|j: int|
            0 <= j < reviewers@.len() && #[trigger] reviewer_selected(
                reviewers@[j],
                options.reviewer_filter,
                options.scope_filter,
            ) ==> exists|k: int| 0 <= k < r@.len() && r@[k] as int == j,
{
    let n = reviewers.len();
    let mut out: Vec<usize> = Vec::new();
    let mut i: usize = 0;
    while i < n
        invariant
            0 <= i <= n == reviewers@.len(),
            forall|k: int|
                0 <= k < out@.len() ==> (out@[k] as int) < i && reviewer_selected(
                    reviewers@[out@[k] as int],
                    options.reviewer_filter,
                    options.scope_filter,
                ),
            forall|k1: int, k2: int| 0 <= k1 < k2 < out@.len() ==> out@[k1] < out@[k2],
            forall|j: int|
                0 <= j < i && #[trigger] reviewer_selected(
                    reviewers@[j],
                    options.reviewer_filter,
                    options.scope_filter,
                ) ==> exists|k: int| 0 <= k < out@.len() && out@[k] as int == j,
        decreases n - i,
    {
        let keep = reviewer_selected_exec(
            &reviewers[i],
            &options.reviewer_filter,
            &options.scope_filter,
        );
        if keep {
            let ghost old_out = out@;
            out.push(i);
            proof {
                assert forall|j: int|
                    0 <= j < i + 1 && #[trigger] reviewer_selected(
                        reviewers@[j],
                        options.reviewer_filter,
                        options.scope_filter,
                    ) implies exists|k: int| 0 <= k < out@.len() && out@[k] as int == j by {
                    if j < i {
                        let k0 = choose|k: int|
                            0 <= k < old_out.len() && old_out[k] as int == j;
                        assert(out@[k0] as int == j);
                    } else {
                        assert(out@[out@.len() - 1] as int == j);
                    }
                };
            }
        }
        i = i + 1;
    }
    out
}

/// The status line of a unit result, as the reports print it.
pub open spec fn format_status_spec(status: ReviewerStatus) -> Seq<char> {
    match status {
        ReviewerStatus::Completed => "✅ Completed"@,
        ReviewerStatus::Skipped { reason } => "⏭️ Skipped ("@ + reason@ + ")"@,
        ReviewerStatus::TimedOut => "⏱️ Timed Out"@,
        ReviewerStatus::Failed { error } => "❌ Failed ("@ + error@ + ")"@,
    }
}

/// Formats a unit's status for its report, per `format_status_spec`.
pub fn format_status(status: &ReviewerStatus) -> (r: String)
    ensures
        r@ == format_status_spec(*status),
{
    match status {
        ReviewerStatus::Completed => string_of(&chars_of("✅ Completed")),
        ReviewerStatus::Skipped { reason } => {
            let mut out = chars_of("⏭️ Skipped (");
            let inner = crate::strutil::string_chars(reason);
            extend_chars(&mut out, &inner);
            let close = chars_of(")");
            extend_chars(&mut out, &close);
            proof {
                assert(out@ =~= format_status_spec(*status));
            }
            string_of(&out)
        },
        ReviewerStatus::TimedOut => string_of(&chars_of("⏱️ Timed Out")),
        ReviewerStatus::Failed { error } => {
            let mut out = chars_of("❌ Failed (");
            let inner = crate::strutil::string_chars(error);
            extend_chars(&mut out, &inner);
            let close = chars_of(")");
            extend_chars(&mut out, &close);
            proof {
                assert(out@ =~= format_status_spec(*status));
            }
            string_of(&out)
        },
    }
}

} // verus!
