//! Locating a parseable JSON span inside free-form provider text.
//!
//! The cascade tries, in order: the trimmed whole text (when it opens with
//! a brace, or a bracket where arrays are allowed); the first fenced code
//! block (```json or plain ```) whose trimmed content parses; and the span
//! from the first `{` to its depth-matched `}`. The brace scan does not
//! track string literals, so a brace inside a quoted string can end the
//! span early; that behaviour is part of the contract here.

use vstd::prelude::*;
use crate::jsonvalue::{json_valid, json_ok};
use crate::text::{trim_ws, trim_chars, matches_at, matches_at_exec, subrange_vec};
use crate::strutil::string_of;

verus! {

/// The code-fence marker.
pub open spec fn fence_seq() -> Seq<char> {
    seq!['`', '`', '`']
}

/// The fence language tag that is stripped when present.
pub open spec fn json_tag_seq() -> Seq<char> {
    seq!['j', 's', 'o', 'n']
}

/// The first position at or after `from` where `pat` occurs in `s`.
pub open spec fn find_from(s: Seq<char>, from: int, pat: Seq<char>) -> Option<int>
    decreases s.len() - from,
{
    if pat.len() == 0 || from < 0 || from + pat.len() > s.len() {
        None
    } else if matches_at(s, from, pat) {
        Some(from)
    } else {
        find_from(s, from + 1, pat)
    }
}

pub proof fn lemma_find_from_bounds(s: Seq<char>, from: int, pat: Seq<char>)
    ensures
        match find_from(s, from, pat) {
            Some(i) => from <= i && i + pat.len() <= s.len() && matches_at(s, i, pat),
            None => true,
        },
    decreases s.len() - from,
{
    if !(pat.len() == 0 || from < 0 || from + pat.len() > s.len()) && !matches_at(s, from, pat) {
        lemma_find_from_bounds(s, from + 1, pat);
    }
}

/// Finds the first occurrence of `pat` at or after `from`.
pub fn find_pat(s: &Vec<char>, from: usize, pat: &Vec<char>) -> (r: Option<usize>)
    requires
        pat@.len() >= 1,
    ensures
        match r {
            Some(i) => find_from(s@, from as int, pat@) == Some(i as int),
            None => find_from(s@, from as int, pat@) is None,
        },
{
    let n = s.len();
    let m = pat.len();
    if from > n || m > n - from {
        return None;
    }
    let mut i: usize = from;
    while m <= n - i
        invariant
            from <= i,
            i <= n == s@.len(),
            m == pat@.len() >= 1,
            find_from(s@, from as int, pat@) == find_from(s@, i as int, pat@),
        decreases n - i,
    {
        if matches_at_exec(s, i, pat) {
            return Some(i);
        }
        i = i + 1;
        proof {
            assert(find_from(s@, i - 1, pat@) == find_from(s@, i as int, pat@));
        }
    }
    None
}

/// The end (exclusive) of the brace span that starts inside `s` at `i`
/// with `depth` braces already open: positions advance one character at a
/// time, `{` deepens, `}` closes, and the span ends just after the brace
/// that returns the depth to zero.
pub open spec fn brace_end(s: Seq<char>, i: int, depth: int) -> Option<int>
    decreases s.len() - i,
{
    if i < 0 || i >= s.len() {
        None
    } else if s[i] == '{' {
        brace_end(s, i + 1, depth + 1)
    } else if s[i] == '}' {
        if depth == 1 {
            Some(i + 1)
        } else {
            brace_end(s, i + 1, depth - 1)
        }
    } else {
        brace_end(s, i + 1, depth)
    }
}

pub proof fn lemma_brace_end_bounds(s: Seq<char>, i: int, depth: int)
    ensures
        match brace_end(s, i, depth) {
            Some(j) => i < j <= s.len(),
            None => true,
        },
    decreases s.len() - i,
{
    if 0 <= i < s.len() {
        if s[i] == '{' {
            lemma_brace_end_bounds(s, i + 1, depth + 1);
        } else if s[i] == '}' {
            if depth != 1 {
                lemma_brace_end_bounds(s, i + 1, depth - 1);
            }
        } else {
            lemma_brace_end_bounds(s, i + 1, depth);
        }
    }
}

/// The start of a fenced block's content: just after the opening fence,
/// with a literal `json` tag stripped when present.
pub open spec fn fence_content_start(s: Seq<char>, open_at: int) -> int {
    if matches_at(s, open_at + 3, json_tag_seq()) {
        open_at + 7
    } else {
        open_at + 3
    }
}

/// The first fenced block at or after `from` whose trimmed content is
/// valid JSON, scanning block by block.
pub open spec fn fenced_scan(s: Seq<char>, from: int) -> Option<Seq<char>>
    decreases s.len() - from,
    via fenced_scan_dec
{
    match find_from(s, from, fence_seq()) {
        None => None,
        Some(i) => {
            let start = fence_content_start(s, i);
            match find_from(s, start, fence_seq()) {
                None => None,
                Some(j) => {
                    let cand = trim_ws(s.subrange(start, j));
                    if json_valid(cand) {
                        Some(cand)
                    } else {
                        fenced_scan(s, j + 3)
                    }
                },
            }
        },
    }
}

#[via_fn]
proof fn fenced_scan_dec(s: Seq<char>, from: int) {
    match find_from(s, from, fence_seq()) {
        Some(i) => {
            lemma_find_from_bounds(s, from, fence_seq());
            let start = fence_content_start(s, i);
            match find_from(s, start, fence_seq()) {
                Some(j) => {
                    lemma_find_from_bounds(s, start, fence_seq());
                },
                None => {},
            }
        },
        None => {},
    }
}

/// The whole extraction cascade: trimmed whole text, then fenced blocks,
/// then the first brace-matched span — the first candidate that is valid
/// JSON wins. Arrays are accepted for the whole-text stage only where
/// `allow_array` is set. The whole-text stage deliberately takes the
/// trimmed text only when it opens with a brace (or bracket): every
/// caller feeds an object pipeline, so a bare top-level scalar is never
/// chosen.
pub open spec fn spec_extract_json(s: Seq<char>, allow_array: bool) -> Option<Seq<char>> {
    let t = trim_ws(s);
    if t.len() > 0 && (t[0] == '{' || (allow_array && t[0] == '[')) && json_valid(t) {
        Some(t)
    } else if fenced_scan(s, 0) is Some {
        fenced_scan(s, 0)
    } else {
        match find_from(s, 0, seq!['{']) {
            None => None,
            Some(b) => match brace_end(s, b, 0) {
                None => None,
                Some(e) => {
                    let cand = s.subrange(b, e);
                    if json_valid(cand) {
                        Some(cand)
                    } else {
                        None
                    }
                },
            },
        }
    }
}

proof fn lemma_fenced_scan_valid(s: Seq<char>, from: int)
    ensures
        match fenced_scan(s, from) {
            Some(v) => json_valid(v),
            None => true,
        },
    decreases s.len() - from,
{
    match find_from(s, from, fence_seq()) {
        None => {},
        Some(i) => {
            lemma_find_from_bounds(s, from, fence_seq());
            let start = fence_content_start(s, i);
            match find_from(s, start, fence_seq()) {
                None => {},
                Some(j) => {
                    lemma_find_from_bounds(s, start, fence_seq());
                    let cand = trim_ws(s.subrange(start, j));
                    if !json_valid(cand) {
                        lemma_fenced_scan_valid(s, j + 3);
                    }
                },
            }
        },
    }
}

/// Every candidate the cascade hands out is valid JSON.
pub proof fn lemma_extract_json_valid(s: Seq<char>, allow_array: bool)
    ensures
        match spec_extract_json(s, allow_array) {
            Some(v) => json_valid(v),
            None => true,
        },
{
    lemma_fenced_scan_valid(s, 0);
}

/// Runs the fenced-block stage.
fn fenced_scan_exec(s: &Vec<char>) -> (r: Option<Vec<char>>)
    ensures
        match r {
            Some(v) => fenced_scan(s@, 0) == Some(v@),
            None => fenced_scan(s@, 0) is None,
        },
{
    let mut fence: Vec<char> = Vec::new();
    fence.push('`');
    fence.push('`');
    fence.push('`');
    let mut tag: Vec<char> = Vec::new();
    tag.push('j');
    tag.push('s');
    tag.push('o');
    tag.push('n');
    proof {
        assert(fence@ =~= fence_seq());
        assert(tag@ =~= json_tag_seq());
    }
    let n = s.len();
    let mut from: usize = 0;
    loop
        invariant
            fence@ == fence_seq(),
            tag@ == json_tag_seq(),
            n == s@.len(),
            0 <= from,
            fenced_scan(s@, 0) == fenced_scan(s@, from as int),
        decreases n + 3 - from,
    {
        match find_pat(s, from, &fence) {
            None => {
                return None;
            },
            Some(i) => {
                proof {
                    lemma_find_from_bounds(s@, from as int, fence@);
                }
                let start = if matches_at_exec(s, i + 3, &tag) {
                    i + 7
                } else {
                    i + 3
                };
                proof {
                    assert(start as int == fence_content_start(s@, i as int));
                }
                match find_pat(s, start, &fence) {
                    None => {
                        return None;
                    },
                    Some(j) => {
                        proof {
                            lemma_find_from_bounds(s@, start as int, fence@);
                        }
                        let raw = subrange_vec(s, start, j);
                        let cand = trim_chars(&raw);
                        let cand_str = string_of(&cand);
                        if json_ok(cand_str.as_str()) {
                            return Some(cand);
                        }
                        from = j + 3;
                    },
                }
            },
        }
    }
}

/// Runs the brace-span stage from the first `{`.
fn brace_scan_exec(s: &Vec<char>) -> (r: Option<Vec<char>>)
    ensures
        ({
            let stage = match find_from(s@, 0, seq!['{']) {
                None => None,
                Some(b) => match brace_end(s@, b, 0) {
                    None => None,
                    Some(e) => Some(s@.subrange(b, e)),
                },
            };
            match r {
                Some(v) => stage == Some(v@),
                None => stage is None,
            }
        }),
{
    let mut open_pat: Vec<char> = Vec::new();
    open_pat.push('{');
    proof {
        assert(open_pat@ =~= seq!['{']);
    }
    let b = match find_pat(s, 0, &open_pat) {
        None => {
            return None;
        },
        Some(b) => b,
    };
    proof {
        lemma_find_from_bounds(s@, 0, open_pat@);
        assert(s@.subrange(b as int, b as int + 1)[0] == '{');
    }
    let n = s.len();
    let mut i: usize = b;
    let mut depth: usize = 0;
    while i < n
        invariant
            b <= i <= n == s@.len(),
            depth <= i,
            s@[b as int] == '{',
            i > b ==> depth >= 1,
            find_from(s@, 0, seq!['{']) == Some(b as int),
            brace_end(s@, b as int, 0) == brace_end(s@, i as int, depth as int),
        decreases n - i,
    {
        let c = s[i];
        if c == '{' {
            depth = depth + 1;
        } else if c == '}' {
            if depth == 1 {
                proof {
                    assert(brace_end(s@, i as int, depth as int) == Some(i + 1));
                }
                return Some(subrange_vec(s, b, i + 1));
            }
            proof {
                assert(i > b);
                assert(depth >= 1);
            }
            depth = depth - 1;
        }
        i = i + 1;
        proof {
            assert(brace_end(s@, i - 1, (if s@[i - 1] == '{' {
                depth - 1
            } else if s@[i - 1] == '}' {
                depth + 1
            } else {
                depth as int
            })) == brace_end(s@, i as int, depth as int));
        }
    }
    proof {
        assert(brace_end(s@, n as int, depth as int) is None);
    }
    None
}

/// Extracts a parseable JSON span from free-form text, per the cascade.
pub fn extract_json_chars(s: &Vec<char>, allow_array: bool) -> (r: Option<Vec<char>>)
    ensures
        match r {
            Some(v) => spec_extract_json(s@, allow_array) == Some(v@),
            None => spec_extract_json(s@, allow_array) is None,
        },
{
    let t = trim_chars(s);
    if t.len() > 0 && (t[0] == '{' || (allow_array && t[0] == '[')) {
        let t_str = string_of(&t);
        if json_ok(t_str.as_str()) {
            return Some(t);
        }
    }
    match fenced_scan_exec(s) {
        Some(v) => {
            return Some(v);
        },
        None => {},
    }
    match brace_scan_exec(s) {
        Some(v) => {
            let v_str = string_of(&v);
            if json_ok(v_str.as_str()) {
                return Some(v);
            }
            return None;
        },
        None => {
            return None;
        },
    }
}

/// The fenced-block and brace-span stages alone, without the whole-text
/// stage: the first fenced block whose trimmed content parses, else the
/// first brace-balanced span if it parses.
pub fn extract_fenced_or_brace(raw: &str) -> (r: Option<String>)
    ensures
        ({
            let stage = if fenced_scan(raw@, 0) is Some {
                fenced_scan(raw@, 0)
            } else {
                match find_from(raw@, 0, seq!['{']) {
                    None => None,
                    Some(b) => match brace_end(raw@, b, 0) {
                        None => None,
                        Some(e) => {
                            let cand = raw@.subrange(b, e);
                            if json_valid(cand) {
                                Some(cand)
                            } else {
                                None
                            }
                        },
                    },
                }
            };
            match r {
                Some(v) => stage == Some(v@),
                None => stage is None,
            }
        }),
{
    let chars = crate::strutil::chars_of(raw);
    match fenced_scan_exec(&chars) {
        Some(v) => {
            return Some(string_of(&v));
        },
        None => {},
    }
    match brace_scan_exec(&chars) {
        Some(v) => {
            let v_str = string_of(&v);
            if json_ok(v_str.as_str()) {
                Some(v_str)
            } else {
                None
            }
        },
        None => None,
    }
}

/// Extracts a parseable JSON span from free-form text: the trimmed whole
/// text, else the first fenced block whose trimmed content parses, else
/// the first brace-balanced span if it parses.
pub fn extract_json(raw: &str, allow_array: bool) -> (r: Option<String>)
    ensures
        match r {
            Some(v) => spec_extract_json(raw@, allow_array) == Some(v@),
            None => spec_extract_json(raw@, allow_array) is None,
        },
{
    let chars = crate::strutil::chars_of(raw);
    match extract_json_chars(&chars, allow_array) {
        Some(v) => Some(string_of(&v)),
        None => None,
    }
}

} // verus!
