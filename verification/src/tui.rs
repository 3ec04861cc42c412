//! Text shaping and view-state types of the terminal interface.
//!
//! Rendering itself happens outside the library; what stands here is the
//! pure shaping of text (durations, ellipsizing, sanitizing, word wrap)
//! and the small state enums the views cycle through.

use vstd::prelude::*;
use crate::config::Priority;
use crate::finding::Finding;
use crate::planner::types::{PerspectiveResult, UnifiedPlan};
use crate::text::{
    dec_digits, u64_to_chars, is_ws, is_ws_char, words_of, extend_chars, subrange_vec,
};
use crate::strutil::{string_of, chars_of, string_chars};

verus! {

/// What the interface is asked to show.
#[derive(Debug, Clone)]
pub struct TuiConfig {
    pub findings: Vec<Finding>,
    pub perspective_results: Vec<PerspectiveResult>,
    pub unified_plan: Option<UnifiedPlan>,
    pub findings_path: Option<String>,
}

/// Which top-level view is active.
#[derive(Debug, Clone, Copy, PartialEq, Eq, Structural)]
pub enum ViewKind {
    Findings,
    Plan,
}

impl Default for ViewKind {
    /// The default view.
    fn default() -> (r: Self)
        ensures
            r == ViewKind::Findings,
    {
        ViewKind::Findings
    }
}

impl ViewKind {
    /// The view's label.
    pub fn label(&self) -> (r: &'static str)
        ensures
            *self == ViewKind::Findings ==> r@ == "findings"@,
            *self == ViewKind::Plan ==> r@ == "plan"@,
    {
        match self {
            ViewKind::Findings => "findings",
            ViewKind::Plan => "plan",
        }
    }
}

/// The priority filter of the findings view.
#[derive(Debug, Clone, Copy, PartialEq, Eq, Structural)]
pub enum FindingFilter {
    All,
    P0,
    P1,
    P2,
}

impl Default for FindingFilter {
    /// The default filter: everything shown.
    fn default() -> (r: Self)
        ensures
            r == FindingFilter::All,
    {
        FindingFilter::All
    }
}

impl FindingFilter {
    /// The next filter in the cycle all, p0, p1, p2.
    pub fn next(self) -> (r: Self)
        ensures
            r == match self {
                FindingFilter::All => FindingFilter::P0,
                FindingFilter::P0 => FindingFilter::P1,
                FindingFilter::P1 => FindingFilter::P2,
                FindingFilter::P2 => FindingFilter::All,
            },
    {
        match self {
            FindingFilter::All => FindingFilter::P0,
            FindingFilter::P0 => FindingFilter::P1,
            FindingFilter::P1 => FindingFilter::P2,
            FindingFilter::P2 => FindingFilter::All,
        }
    }

    /// The filter's label.
    pub fn label(&self) -> (r: &'static str)
        ensures
            *self == FindingFilter::All ==> r@ == "all"@,
            *self == FindingFilter::P0 ==> r@ == "p0"@,
            *self == FindingFilter::P1 ==> r@ == "p1"@,
            *self == FindingFilter::P2 ==> r@ == "p2"@,
    {
        match self {
            FindingFilter::All => "all",
            FindingFilter::P0 => "p0",
            FindingFilter::P1 => "p1",
            FindingFilter::P2 => "p2",
        }
    }

    /// Whether a finding of this priority passes the filter.
    pub fn matches(&self, priority: Priority) -> (r: bool)
        ensures
            r == match self {
                FindingFilter::All => true,
                FindingFilter::P0 => priority == Priority::P0,
                FindingFilter::P1 => priority == Priority::P1,
                FindingFilter::P2 => priority == Priority::P2,
            },
    {
        match self {
            FindingFilter::All => true,
            FindingFilter::P0 => matches!(priority, Priority::P0),
            FindingFilter::P1 => matches!(priority, Priority::P1),
            FindingFilter::P2 => matches!(priority, Priority::P2),
        }
    }
}

/// Which pane of the plan view has focus.
#[derive(Debug, Clone, Copy, PartialEq, Eq, Structural)]
pub enum PlanPane {
    Perspectives,
    Tasks,
    Questions,
    Detail,
}

impl Default for PlanPane {
    /// The default pane.
    fn default() -> (r: Self)
        ensures
            r == PlanPane::Perspectives,
    {
        PlanPane::Perspectives
    }
}

impl PlanPane {
    /// The next pane in the cycle.
    pub fn next(self) -> (r: Self)
        ensures
            r == match self {
                PlanPane::Perspectives => PlanPane::Tasks,
                PlanPane::Tasks => PlanPane::Questions,
                PlanPane::Questions => PlanPane::Detail,
                PlanPane::Detail => PlanPane::Perspectives,
            },
    {
        match self {
            PlanPane::Perspectives => PlanPane::Tasks,
            PlanPane::Tasks => PlanPane::Questions,
            PlanPane::Questions => PlanPane::Detail,
            PlanPane::Detail => PlanPane::Perspectives,
        }
    }
}

/// What the plan view's detail pane shows.
#[derive(Debug, Clone, Copy, PartialEq, Eq, Structural)]
pub enum DetailItem {
    Nothing,
    Perspective(usize),
    Task(usize),
    Question(usize),
    Risk(usize),
}

/// The tone of the status bar.
#[derive(Debug, Clone, Copy, PartialEq, Eq, Structural)]
pub enum StatusTone {
    Info,
    Success,
    Error,
    Warning,
}

/// A duration in text: seconds under a minute, minutes and seconds under
/// an hour, hours and minutes beyond.
pub open spec fn format_duration_spec(secs: int) -> Seq<char> {
    if secs < 60 {
        dec_digits(secs) + "s"@
    } else if secs < 3600 {
        dec_digits(secs / 60) + "m "@ + dec_digits(secs % 60) + "s"@
    } else {
        dec_digits(secs / 3600) + "h "@ + dec_digits((secs % 3600) / 60) + "m"@
    }
}

/// Formats a duration, given in milliseconds, per `format_duration_spec`
/// of its whole seconds.
pub fn format_duration(duration_ms: u64) -> (r: String)
    ensures
        r@ == format_duration_spec((duration_ms / 1000) as int),
{
    let secs = duration_ms / 1000;
    if secs < 60 {
        let mut out = u64_to_chars(secs);
        let p = chars_of("s");
        extend_chars(&mut out, &p);
        string_of(&out)
    } else if secs < 3600 {
        let mut out = u64_to_chars(secs / 60);
        let p1 = chars_of("m ");
        extend_chars(&mut out, &p1);
        let rest = u64_to_chars(secs % 60);
        extend_chars(&mut out, &rest);
        let p2 = chars_of("s");
        extend_chars(&mut out, &p2);
        string_of(&out)
    } else {
        let mut out = u64_to_chars(secs / 3600);
        let p1 = chars_of("h ");
        extend_chars(&mut out, &p1);
        let rest = u64_to_chars((secs % 3600) / 60);
        extend_chars(&mut out, &rest);
        let p2 = chars_of("m");
        extend_chars(&mut out, &p2);
        string_of(&out)
    }
}

/// Text cut to at most `max_chars` characters, the last one an ellipsis
/// when anything was cut.
pub open spec fn ellipsize_spec(s: Seq<char>, max_chars: int) -> Seq<char> {
    if s.len() <= max_chars {
        s
    } else if max_chars == 0 {
        Seq::empty()
    } else {
        s.take(max_chars - 1).push('…')
    }
}

/// Ellipsizes text to fit `max_chars` characters.
pub fn ellipsize(value: &str, max_chars: usize) -> (r: String)
    ensures
        r@ == ellipsize_spec(value@, max_chars as int),
{
    let chars = chars_of(value);
    if chars.len() <= max_chars {
        return string_of(&chars);
    }
    if max_chars == 0 {
        return String::new();
    }
    let mut out = subrange_vec(&chars, 0, max_chars - 1);
    out.push('…');
    proof {
        assert(out@ =~= ellipsize_spec(value@, max_chars as int));
    }
    string_of(&out)
}

/// Newlines and carriage returns replaced by spaces.
pub open spec fn sanitize_spec(s: Seq<char>) -> Seq<char> {
    s.map(|_i: int, c: char| if c == '\n' || c == '\r' { ' ' } else { c })
}

/// Replaces newlines with spaces for single-line display.
pub fn sanitize_text(value: &str) -> (r: String)
    ensures
        r@ == sanitize_spec(value@),
{
    let chars = chars_of(value);
    let n = chars.len();
    let mut out: Vec<char> = Vec::new();
    let mut i: usize = 0;
    while i < n
        invariant
            0 <= i <= n == chars@.len(),
            chars@ == value@,
            out@ == sanitize_spec(value@.take(i as int)),
        decreases n - i,
    {
        let c = chars[i];
        if c == '\n' || c == '\r' {
            out.push(' ');
        } else {
            out.push(c);
        }
        i = i + 1;
        proof {
            assert(out@ =~= sanitize_spec(value@.take(i as int)));
        }
    }
    proof {
        assert(value@.take(n as int) =~= value@);
    }
    string_of(&out)
}

/// Greedy word wrap: words are packed onto a line while they fit within
/// `width` characters counting single joining spaces; a word that does
/// not fit starts the next line (an over-long word stands alone).
pub open spec fn wrap_go(
    words: Seq<Seq<char>>,
    width: int,
    cur: Seq<char>,
    acc: Seq<Seq<char>>,
) -> Seq<Seq<char>>
    decreases words.len(),
{
    if words.len() == 0 {
        if cur.len() > 0 {
            acc.push(cur)
        } else {
            acc
        }
    } else {
        let w = words[0];
        if cur.len() == 0 {
            wrap_go(words.drop_first(), width, w, acc)
        } else if cur.len() + 1 + w.len() <= width {
            wrap_go(words.drop_first(), width, cur + seq![' '] + w, acc)
        } else {
            wrap_go(words.drop_first(), width, w, acc.push(cur))
        }
    }
}

/// The wrapped lines of `s`: its words (after newline sanitizing) packed
/// greedily; empty text yields one empty line.
pub open spec fn wrap_spec(s: Seq<char>, width: int) -> Seq<Seq<char>> {
    let lines = wrap_go(words_of(sanitize_spec(s)), width, Seq::empty(), Seq::empty());
    if lines.len() == 0 {
        seq![Seq::<char>::empty()]
    } else {
        lines
    }
}

/// The maximal non-white-space runs of `s`, as vectors.
pub(crate) fn words_exec(s: &Vec<char>) -> (r: Vec<Vec<char>>)
    ensures
        r@.len() == words_of(s@).len(),
        forall|k: int| 0 <= k < r@.len() ==> r@[k]@ == words_of(s@)[k],
{
    let n = s.len();
    let mut out: Vec<Vec<char>> = Vec::new();
    let mut i: usize = 0;
    let ghost mut emitted: Seq<Seq<char>> = Seq::empty();
    proof {
        assert(s@.skip(0) =~= s@);
    }
    while i < n
        invariant
            0 <= i <= n == s@.len(),
            words_of(s@) == emitted + words_of(s@.skip(i as int)),
            out@.len() == emitted.len(),
            forall|k: int| 0 <= k < out@.len() ==> out@[k]@ == emitted[k],
        decreases n - i,
    {
        if is_ws_char(s[i]) {
            proof {
                let rest = s@.skip(i as int);
                assert(rest[0] == s@[i as int]);
                assert(words_of(rest) == words_of(rest.drop_first()));
                assert(rest.drop_first() =~= s@.skip(i + 1));
            }
            i = i + 1;
        } else {
            let start = i;
            let mut w: Vec<char> = Vec::new();
            while i < n && !is_ws_char(s[i])
                invariant
                    0 <= start <= i <= n == s@.len(),
                    start < n,
                    !is_ws(s@[start as int]),
                    forall|k: int| start <= k < i ==> !is_ws(s@[k]),
                    w@ == s@.subrange(start as int, i as int),
                decreases n - i,
            {
                w.push(s[i]);
                i = i + 1;
                proof {
                    assert(w@ =~= s@.subrange(start as int, i as int));
                }
            }
            proof {
                let rest = s@.skip(start as int);
                let k = (i - start) as int;
                assert(forall|j: int| 0 <= j < k ==> rest[j] == s@[start + j]);
                if k < rest.len() {
                    assert(rest[k] == s@[i as int]);
                }
                crate::text::lemma_words_take_word(rest, k);
                assert(rest.take(k) =~= s@.subrange(start as int, i as int));
                assert(rest.skip(k) =~= s@.skip(i as int));
                assert(words_of(s@.skip(start as int)) == seq![w@] + words_of(s@.skip(i as int)));
                assert(emitted + (seq![w@] + words_of(s@.skip(i as int))) =~= (emitted.push(w@))
                    + words_of(s@.skip(i as int)));
                emitted = emitted.push(w@);
            }
            out.push(w);
        }
    }
    proof {
        assert(s@.skip(n as int) =~= Seq::<char>::empty());
        assert(emitted + Seq::<Seq<char>>::empty() =~= emitted);
    }
    out
}

/// Word-wraps text to the given width, per `wrap_spec`.
pub fn wrap_text(text: &str, max_width: usize) -> (r: Vec<String>)
    ensures
        r@.len() == wrap_spec(text@, max_width as int).len(),
        forall|k: int| 0 <= k < r@.len() ==> r@[k]@ == wrap_spec(text@, max_width as int)[k],
{
    let clean = sanitize_text(text);
    let clean_chars = string_chars(&clean);
    let words = words_exec(&clean_chars);
    let nw = words.len();
    let ghost all_words = words_of(sanitize_spec(text@));
    let mut lines: Vec<String> = Vec::new();
    let mut cur: Vec<char> = Vec::new();
    let ghost mut acc: Seq<Seq<char>> = Seq::empty();
    let mut i: usize = 0;
    proof {
        assert(all_words.skip(0) =~= all_words);
    }
    while i < nw
        invariant
            0 <= i <= nw == words@.len(),
            words@.len() == all_words.len(),
            forall|k: int| 0 <= k < words@.len() ==> words@[k]@ == all_words[k],
            lines@.len() == acc.len(),
            forall|k: int| 0 <= k < lines@.len() ==> lines@[k]@ == acc[k],
            wrap_go(all_words, max_width as int, Seq::empty(), Seq::empty()) == wrap_go(
                all_words.skip(i as int),
                max_width as int,
                cur@,
                acc,
            ),
        decreases nw - i,
    {
        let w = &words[i];
        proof {
            let rest = all_words.skip(i as int);
            assert(rest[0] == all_words[i as int]);
            assert(rest.drop_first() =~= all_words.skip(i + 1));
        }
        if cur.len() == 0 {
            let fresh = subrange_vec(w, 0, w.len());
            proof {
                assert(fresh@ =~= words@[i as int]@);
            }
            cur = fresh;
        } else if w.len() < max_width && cur.len() <= max_width - 1 - w.len() {
            let ghost oldcur = cur@;
            cur.push(' ');
            extend_chars(&mut cur, w);
            proof {
                assert(cur@ =~= oldcur + seq![' '] + all_words[i as int]);
            }
        } else {
            proof {
                assert(cur@.len() >= 1);
                assert(cur@.len() + 1 + words@[i as int]@.len() > max_width);
            }
            lines.push(string_of(&cur));
            proof {
                acc = acc.push(cur@);
            }
            let fresh = subrange_vec(w, 0, w.len());
            proof {
                assert(fresh@ =~= words@[i as int]@);
            }
            cur = fresh;
        }
        i = i + 1;
    }
    proof {
        assert(all_words.skip(nw as int) =~= Seq::<Seq<char>>::empty());
    }
    if cur.len() > 0 {
        lines.push(string_of(&cur));
        proof {
            acc = acc.push(cur@);
        }
    }
    if lines.len() == 0 {
        lines.push(String::new());
        proof {
            assert(wrap_spec(text@, max_width as int) =~= seq![Seq::<char>::empty()]);
        }
    }
    lines
}

} // verus!
