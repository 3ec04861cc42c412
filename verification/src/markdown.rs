//! The markdown-table fallback for findings.
//!
//! When no JSON can be recovered from provider text, rows of the shape
//! `| file | line | severity | type | issue | recommendation |` are read
//! line by line: the line must open with a pipe and hold six non-empty
//! cells, the line cell all digits and the severity cell one of
//! `p0 p1 p2 high medium low critical` after trimming. A row whose file
//! cell reads `file` (any case) is a header and is skipped; a row whose
//! line number exceeds `u32` aborts the whole table, as decoding it did in
//! the format this parser recovers.

use vstd::prelude::*;
use crate::config::Priority;
use crate::finding::Finding;
use crate::jsonscan::{find_from, lemma_find_from_bounds, find_pat};
use crate::text::{
    trim_ws, trim_chars, lower_seq, lower_chars, upper_seq, upper_chars, dec_digits, u64_to_chars,
    subrange_vec, extend_chars,
};
use crate::strutil::{string_of, chars_of, chars_eq};

verus! {

/// The lines of `s`, split on `\n`.
pub open spec fn split_lines(s: Seq<char>) -> Seq<Seq<char>>
    decreases s.len(),
    via split_lines_dec
{
    match find_from(s, 0, seq!['\n']) {
        None => seq![s],
        Some(i) => seq![s.take(i)] + split_lines(s.skip(i + 1)),
    }
}

#[via_fn]
proof fn split_lines_dec(s: Seq<char>) {
    lemma_find_from_bounds(s, 0, seq!['\n']);
}

/// The next `count` cells of `line` after the pipe at `pos`: each cell is
/// the non-empty text between consecutive pipes.
pub open spec fn cells_from(line: Seq<char>, pos: int, count: nat) -> Option<Seq<Seq<char>>>
    decreases count,
{
    if count == 0 {
        Some(Seq::empty())
    } else {
        match find_from(line, pos + 1, seq!['|']) {
            None => None,
            Some(q) => if q == pos + 1 {
                None
            } else {
                match cells_from(line, q, (count - 1) as nat) {
                    None => None,
                    Some(rest) => Some(seq![line.subrange(pos + 1, q)] + rest),
                }
            },
        }
    }
}

/// The six raw cells of a table row, if the line is one.
pub open spec fn md_cells(line: Seq<char>) -> Option<Seq<Seq<char>>> {
    if line.len() > 0 && line[0] == '|' {
        cells_from(line, 0, 6)
    } else {
        None
    }
}

/// The numeric value of a decimal digit, or an out-of-range marker.
pub open spec fn digit_of(c: char) -> int {
    if c == '0' { 0 } else if c == '1' { 1 } else if c == '2' { 2 } else if c == '3' { 3 }
    else if c == '4' { 4 } else if c == '5' { 5 } else if c == '6' { 6 } else if c == '7' { 7 }
    else if c == '8' { 8 } else if c == '9' { 9 } else { 10 }
}

/// Whether `s` is one or more decimal digits.
pub open spec fn all_digits(s: Seq<char>) -> bool {
    s.len() >= 1 && forall|i: int| 0 <= i < s.len() ==> digit_of(s[i]) < 10
}

/// The value of a decimal digit string.
pub open spec fn digits_val(s: Seq<char>) -> int
    decreases s.len(),
{
    if s.len() == 0 {
        0
    } else {
        digits_val(s.drop_last()) * 10 + digit_of(s.last())
    }
}

/// The severity labels the table accepts.
pub open spec fn sev_ok(t: Seq<char>) -> bool {
    t == seq!['p', '0'] || t == seq!['p', '1'] || t == seq!['p', '2'] || t == seq![
        'h',
        'i',
        'g',
        'h',
    ] || t == seq!['m', 'e', 'd', 'i', 'u', 'm'] || t == seq!['l', 'o', 'w'] || t == seq![
        'c',
        'r',
        'i',
        't',
        'i',
        'c',
        'a',
        'l',
    ]
}

/// The priority for a severity label: `p0`, `critical` and `high` map to
/// P0; `p1` and `medium` to P1; `p2` and `low` to P2; anything else falls
/// back to the default.
pub open spec fn sev_priority(t: Seq<char>, dflt: Priority) -> Priority {
    if t == seq!['p', '0'] || t == seq!['c', 'r', 'i', 't', 'i', 'c', 'a', 'l'] || t == seq![
        'h',
        'i',
        'g',
        'h',
    ] {
        Priority::P0
    } else if t == seq!['p', '1'] || t == seq!['m', 'e', 'd', 'i', 'u', 'm'] {
        Priority::P1
    } else if t == seq!['p', '2'] || t == seq!['l', 'o', 'w'] {
        Priority::P2
    } else {
        dflt
    }
}

/// A parsed row: trimmed file, digit string, severity, type, issue and
/// recommendation cells.
pub struct MdRow {
    pub file: Seq<char>,
    pub digits: Seq<char>,
    pub severity: Seq<char>,
    pub finding_type: Seq<char>,
    pub issue: Seq<char>,
    pub recommendation: Seq<char>,
}

/// The parsed row of a line, if it matches the table grammar.
pub open spec fn md_row(line: Seq<char>) -> Option<MdRow> {
    match md_cells(line) {
        None => None,
        Some(cells) => {
            let digits = trim_ws(cells[1]);
            let sev = trim_ws(cells[2]);
            if all_digits(digits) && sev_ok(sev) {
                Some(
                    MdRow {
                        file: trim_ws(cells[0]),
                        digits,
                        severity: sev,
                        finding_type: trim_ws(cells[3]),
                        issue: trim_ws(cells[4]),
                        recommendation: trim_ws(cells[5]),
                    },
                )
            } else {
                None
            }
        },
    }
}

/// The header word that marks a row to skip.
pub open spec fn file_word() -> Seq<char> {
    seq!['f', 'i', 'l', 'e']
}

/// The data rows of the table, in order: non-matching lines are skipped,
/// header rows (file cell `file` in any case) are skipped, and a row whose
/// line number does not fit `u32` aborts the whole table.
pub open spec fn md_scan(lines: Seq<Seq<char>>) -> Option<Seq<MdRow>>
    decreases lines.len(),
{
    if lines.len() == 0 {
        Some(Seq::empty())
    } else {
        let rest = lines.drop_first();
        match md_row(lines[0]) {
            None => md_scan(rest),
            Some(row) => {
                if digits_val(row.digits) > u32::MAX {
                    None
                } else if lower_seq(row.file) == file_word() {
                    md_scan(rest)
                } else {
                    match md_scan(rest) {
                        None => None,
                        Some(t) => Some(seq![row] + t),
                    }
                }
            },
        }
    }
}

/// Whether `f` is the finding that data row `row` yields at 1-based
/// position `n` for this unit.
pub open spec fn finding_of_row(
    f: Finding,
    row: MdRow,
    n: int,
    reviewer_id: Seq<char>,
    dflt: Priority,
) -> bool {
    &&& f.id@ == upper_seq(reviewer_id) + seq!['-'] + dec_digits(n)
    &&& f.finding_type@ == row.finding_type
    &&& f.title@ == row.issue
    &&& f.priority == sev_priority(row.severity, dflt)
    &&& f.file@ == row.file
    &&& f.line as int == digits_val(row.digits)
    &&& f.snippet is None
    &&& f.description@ == row.issue
    &&& f.remediation@ == row.recommendation
    &&& f.acceptance_criteria@.len() == 0
    &&& f.references@.len() == 0
}

proof fn lemma_digits_val_nonneg(s: Seq<char>)
    ensures
        digits_val(s) >= 0,
    decreases s.len(),
{
    if s.len() > 0 {
        lemma_digits_val_nonneg(s.drop_last());
    }
}

proof fn lemma_digits_prefix(s: Seq<char>, i: int)
    requires
        0 <= i <= s.len(),
    ensures
        digits_val(s.take(i)) <= digits_val(s),
    decreases s.len() - i,
{
    if i < s.len() {
        let t = s.take(i + 1);
        assert(t.drop_last() =~= s.take(i));
        lemma_digits_val_nonneg(s.take(i));
        assert(digits_val(t) == digits_val(s.take(i)) * 10 + digit_of(t.last()));
        assert(digits_val(s.take(i)) * 10 >= digits_val(s.take(i)));
        assert(digit_of(t.last()) >= 0);
        lemma_digits_prefix(s, i + 1);
    } else {
        assert(s.take(i) =~= s);
    }
}

/// Parses a digit string into a `u32`, reporting an overflow exactly when
/// the value does not fit.
fn parse_u32_digits(d: &Vec<char>) -> (r: Option<u32>)
    requires
        all_digits(d@),
    ensures
        match r {
            Some(v) => v as int == digits_val(d@),
            None => digits_val(d@) > u32::MAX,
        },
{
    let n = d.len();
    let mut acc: u64 = 0;
    let mut i: usize = 0;
    proof {
        assert(d@.take(0) =~= Seq::<char>::empty());
    }
    while i < n
        invariant
            0 <= i <= n == d@.len(),
            all_digits(d@),
            acc <= u32::MAX,
            acc as int == digits_val(d@.take(i as int)),
        decreases n - i,
    {
        let c = d[i];
        let dv: u64 = if c == '0' { 0 } else if c == '1' { 1 } else if c == '2' { 2 }
            else if c == '3' { 3 } else if c == '4' { 4 } else if c == '5' { 5 }
            else if c == '6' { 6 } else if c == '7' { 7 } else if c == '8' { 8 } else { 9 };
        proof {
            assert(digit_of(d@[i as int]) < 10);
            assert(dv as int == digit_of(d@[i as int]));
        }
        let next = acc * 10 + dv;
        proof {
            assert(d@.take(i + 1).drop_last() =~= d@.take(i as int));
            assert(d@.take(i + 1).last() == d@[i as int]);
            assert(next as int == digits_val(d@.take(i + 1)));
        }
        if next > 0xFFFF_FFFF {
            proof {
                lemma_digits_prefix(d@, i + 1);
            }
            return None;
        }
        acc = next;
        i = i + 1;
    }
    proof {
        assert(d@.take(n as int) =~= d@);
    }
    Some(acc as u32)
}

/// Parses one line as a table row.
fn parse_row(line: &Vec<char>) -> (r: Option<(Vec<char>, Vec<char>, Vec<char>, Vec<char>, Vec<
    char,
>, Vec<char>)>)
    ensures
        match r {
            Some(cells) => md_row(line@) == Some(
                MdRow {
                    file: cells.0@,
                    digits: cells.1@,
                    severity: cells.2@,
                    finding_type: cells.3@,
                    issue: cells.4@,
                    recommendation: cells.5@,
                },
            ),
            None => md_row(line@) is None,
        },
{
    if line.len() == 0 {
        return None;
    }
    if line[0] != '|' {
        return None;
    }
    let mut pipe: Vec<char> = Vec::new();
    pipe.push('|');
    proof {
        assert(pipe@ =~= seq!['|']);
    }
    let n = line.len();
    let mut raw_cells: Vec<Vec<char>> = Vec::new();
    let mut pos: usize = 0;
    let mut k: usize = 0;
    proof {
        match cells_from(line@, 0, 6) {
            Some(rest) => {
                assert(Seq::new(0, |j: int| raw_cells@[j]@) + rest =~= rest);
            },
            None => {},
        }
    }
    while k < 6
        invariant
            0 <= k <= 6,
            pipe@ == seq!['|'],
            pos < n,
            n == line@.len(),
            raw_cells@.len() == k,
            line@.len() > 0 && line@[0] == '|',
            cells_from(line@, 0, 6) == (match cells_from(line@, pos as int, (6 - k) as nat) {
                None => None::<Seq<Seq<char>>>,
                Some(rest) => Some(
                    Seq::new(raw_cells@.len(), |j: int| raw_cells@[j]@) + rest,
                ),
            }),
        decreases 6 - k,
    {
        let ghost oldpos = pos as int;
        let ghost oldcnt = (6 - k) as nat;
        match find_pat(line, pos + 1, &pipe) {
            None => {
                proof {
                    assert(cells_from(line@, oldpos, oldcnt) is None);
                }
                return None;
            },
            Some(q) => {
                proof {
                    lemma_find_from_bounds(line@, pos + 1, pipe@);
                }
                if q == pos + 1 {
                    proof {
                        assert(cells_from(line@, oldpos, oldcnt) is None);
                    }
                    return None;
                }
                let cell = subrange_vec(line, pos + 1, q);
                let ghost old_cells = raw_cells@;
                raw_cells.push(cell);
                pos = q;
                k = k + 1;
                proof {
                    let oldc = Seq::new(old_cells.len(), |j: int| old_cells[j]@);
                    let newc = Seq::new(raw_cells@.len(), |j: int| raw_cells@[j]@);
                    assert(newc =~= oldc.push(cell@));
                    match cells_from(line@, pos as int, (6 - k) as nat) {
                        None => {
                            assert(cells_from(line@, oldpos, oldcnt) is None);
                        },
                        Some(rest) => {
                            assert(cells_from(line@, oldpos, oldcnt) == Some(
                                seq![cell@] + rest,
                            ));
                            assert(oldc + (seq![cell@] + rest) =~= oldc.push(cell@) + rest);
                        },
                    }
                }
            },
        }
    }
    proof {
        assert(cells_from(line@, pos as int, 0) == Some(Seq::<Seq<char>>::empty()));
        assert(Seq::new(raw_cells@.len(), |j: int| raw_cells@[j]@) + Seq::<Seq<char>>::empty()
            =~= Seq::new(raw_cells@.len(), |j: int| raw_cells@[j]@));
    }
    let digits = trim_chars(&raw_cells[1]);
    let sev = trim_chars(&raw_cells[2]);
    let digits_ok = check_all_digits(&digits);
    let sev_is_ok = check_sev(&sev);
    proof {
        let cells = Seq::new(raw_cells@.len(), |j: int| raw_cells@[j]@);
        assert(cells[0] == raw_cells@[0]@);
        assert(cells[1] == raw_cells@[1]@);
        assert(cells[2] == raw_cells@[2]@);
        assert(cells[3] == raw_cells@[3]@);
        assert(cells[4] == raw_cells@[4]@);
        assert(cells[5] == raw_cells@[5]@);
    }
    if !(digits_ok && sev_is_ok) {
        return None;
    }
    let file = trim_chars(&raw_cells[0]);
    let ftype = trim_chars(&raw_cells[3]);
    let issue = trim_chars(&raw_cells[4]);
    let rec = trim_chars(&raw_cells[5]);
    Some((file, digits, sev, ftype, issue, rec))
}

/// Tests `all_digits`.
fn check_all_digits(s: &Vec<char>) -> (r: bool)
    ensures
        r == all_digits(s@),
{
    if s.len() == 0 {
        return false;
    }
    let n = s.len();
    let mut i: usize = 0;
    while i < n
        invariant
            0 <= i <= n == s@.len(),
            forall|j: int| 0 <= j < i ==> digit_of(s@[j]) < 10,
        decreases n - i,
    {
        let c = s[i];
        let ok = c == '0' || c == '1' || c == '2' || c == '3' || c == '4' || c == '5' || c == '6'
            || c == '7' || c == '8' || c == '9';
        if !ok {
            proof {
                assert(digit_of(s@[i as int]) >= 10);
            }
            return false;
        }
        i = i + 1;
    }
    true
}

/// Tests `sev_ok`.
fn check_sev(s: &Vec<char>) -> (r: bool)
    ensures
        r == sev_ok(s@),
{
    let p0 = chars_of("p0");
    let p1 = chars_of("p1");
    let p2 = chars_of("p2");
    let high = chars_of("high");
    let medium = chars_of("medium");
    let low = chars_of("low");
    let critical = chars_of("critical");
    proof {
        reveal_strlit("p0");
        reveal_strlit("p1");
        reveal_strlit("p2");
        reveal_strlit("high");
        reveal_strlit("medium");
        reveal_strlit("low");
        reveal_strlit("critical");
        assert(p0@ =~= seq!['p', '0']);
        assert(p1@ =~= seq!['p', '1']);
        assert(p2@ =~= seq!['p', '2']);
        assert(high@ =~= seq!['h', 'i', 'g', 'h']);
        assert(medium@ =~= seq!['m', 'e', 'd', 'i', 'u', 'm']);
        assert(low@ =~= seq!['l', 'o', 'w']);
        assert(critical@ =~= seq!['c', 'r', 'i', 't', 'i', 'c', 'a', 'l']);
    }
    chars_eq(s, &p0) || chars_eq(s, &p1) || chars_eq(s, &p2) || chars_eq(s, &high) || chars_eq(
        s,
        &medium,
    ) || chars_eq(s, &low) || chars_eq(s, &critical)
}

/// Maps a severity label to its priority, with the fallback default.
fn sev_priority_exec(s: &Vec<char>, dflt: Priority) -> (r: Priority)
    ensures
        r == sev_priority(s@, dflt),
{
    let p0 = chars_of("p0");
    let p1 = chars_of("p1");
    let p2 = chars_of("p2");
    let high = chars_of("high");
    let medium = chars_of("medium");
    let low = chars_of("low");
    let critical = chars_of("critical");
    proof {
        reveal_strlit("p0");
        reveal_strlit("p1");
        reveal_strlit("p2");
        reveal_strlit("high");
        reveal_strlit("medium");
        reveal_strlit("low");
        reveal_strlit("critical");
        assert(p0@ =~= seq!['p', '0']);
        assert(p1@ =~= seq!['p', '1']);
        assert(p2@ =~= seq!['p', '2']);
        assert(high@ =~= seq!['h', 'i', 'g', 'h']);
        assert(medium@ =~= seq!['m', 'e', 'd', 'i', 'u', 'm']);
        assert(low@ =~= seq!['l', 'o', 'w']);
        assert(critical@ =~= seq!['c', 'r', 'i', 't', 'i', 'c', 'a', 'l']);
    }
    if chars_eq(s, &p0) || chars_eq(s, &critical) || chars_eq(s, &high) {
        Priority::P0
    } else if chars_eq(s, &p1) || chars_eq(s, &medium) {
        Priority::P1
    } else if chars_eq(s, &p2) || chars_eq(s, &low) {
        Priority::P2
    } else {
        dflt
    }
}

/// Splits text into lines on `\n`.
pub(crate) fn split_lines_exec(s: &Vec<char>) -> (r: Vec<Vec<char>>)
    ensures
        r@.len() == split_lines(s@).len(),
        forall|k: int| 0 <= k < r@.len() ==> r@[k]@ == split_lines(s@)[k],
{
    let mut nl: Vec<char> = Vec::new();
    nl.push('\n');
    proof {
        assert(nl@ =~= seq!['\n']);
    }
    let mut out: Vec<Vec<char>> = Vec::new();
    let mut rest: Vec<char> = clone_chars(s);
    let ghost whole = s@;
    loop
        invariant
            whole == s@,
            nl@ == seq!['\n'],
            split_lines(whole) == Seq::new(out@.len(), |j: int| out@[j]@) + split_lines(rest@),
        decreases rest@.len() + 1,
    {
        match find_pat(&rest, 0, &nl) {
            None => {
                let ghost pre = Seq::new(out@.len(), |j: int| out@[j]@);
                out.push(rest);
                proof {
                    assert(split_lines(rest@) == seq![rest@]);
                    assert(Seq::new(out@.len(), |j: int| out@[j]@) =~= pre.push(rest@));
                    assert(pre + seq![rest@] =~= pre.push(rest@));
                    assert(split_lines(whole) =~= Seq::new(out@.len(), |j: int| out@[j]@));
                }
                return out;
            },
            Some(i) => {
                let rl = rest.len();
                proof {
                    lemma_find_from_bounds(rest@, 0, nl@);
                    assert(i + 1 <= rl);
                }
                let head = subrange_vec(&rest, 0, i);
                let tail = subrange_vec(&rest, i + 1, rl);
                let ghost pre = Seq::new(out@.len(), |j: int| out@[j]@);
                out.push(head);
                proof {
                    assert(head@ =~= rest@.take(i as int));
                    assert(tail@ =~= rest@.skip(i + 1));
                    assert(split_lines(rest@) == seq![rest@.take(i as int)] + split_lines(
                        rest@.skip(i + 1),
                    ));
                    assert(Seq::new(out@.len(), |j: int| out@[j]@) =~= pre.push(head@));
                    assert(pre + (seq![head@] + split_lines(tail@)) =~= (pre.push(head@))
                        + split_lines(tail@));
                }
                rest = tail;
            },
        }
    }
}

/// Clones a character vector.
fn clone_chars(v: &Vec<char>) -> (r: Vec<char>)
    ensures
        r@ == v@,
{
    subrange_vec(v, 0, v.len())
}

/// Tries to parse findings out of a markdown table: the data rows in
/// order, numbered `{UNIT_ID}-{n}` with the unit id upper-cased;
/// `None` when no data row matches or the table aborts.
pub fn try_parse_markdown_table(raw: &str, reviewer_id: &str, default_priority: Priority) -> (r:
    Option<Vec<Finding>>)
    ensures
        ({
            let rows = md_scan(split_lines(raw@));
            match r {
                None => rows is None || (rows matches Some(rs) && rs.len() == 0),
                Some(v) => rows matches Some(rs) && rs.len() == v@.len() && v@.len() > 0 && (forall|
                    k: int,
                |
                    0 <= k < v@.len() ==> finding_of_row(
                        v@[k],
                        rs[k],
                        k + 1,
                        reviewer_id@,
                        default_priority,
                    )),
            }
        }),
{
    let chars = chars_of(raw);
    let lines = split_lines_exec(&chars);
    let upper_reviewer = upper_chars(&chars_of(reviewer_id));
    let nlines = lines.len();
    let mut findings: Vec<Finding> = Vec::new();
    let ghost all_lines = split_lines(chars@);
    let mut li: usize = 0;
    proof {
        assert(all_lines.take(0) =~= Seq::<Seq<char>>::empty());
    }
    while li < nlines
        invariant
            0 <= li <= nlines == lines@.len(),
            findings@.len() <= li,
            all_lines == split_lines(raw@),
            lines@.len() == all_lines.len(),
            forall|k: int| 0 <= k < lines@.len() ==> lines@[k]@ == all_lines[k],
            upper_reviewer@ == upper_seq(reviewer_id@),
            md_scan(all_lines.take(li as int)) matches Some(rs) && rs.len() == findings@.len()
                && (forall|k: int|
                0 <= k < findings@.len() ==> finding_of_row(
                    findings@[k],
                    rs[k],
                    k + 1,
                    reviewer_id@,
                    default_priority,
                )),
        decreases nlines - li,
    {
        match parse_row(&lines[li]) {
            None => {},
            Some(cells) => {
                let (file, digits, sev, ftype, issue, rec) = cells;
                match parse_u32_digits(&digits) {
                    None => {
                        proof {
                            lemma_md_scan_abort(all_lines, li as int);
                        }
                        return None;
                    },
                    Some(line_no) => {
                        let lower_file = lower_chars(&file);
                        let fw = chars_of("file");
                        proof {
                            reveal_strlit("file");
                            assert(fw@ =~= file_word());
                        }
                        if chars_eq(&lower_file, &fw) {
                            // header row: skipped
                        } else {
                            let mut id_chars = clone_chars(&upper_reviewer);
                            id_chars.push('-');
                            let num = u64_to_chars((findings.len() + 1) as u64);
                            extend_chars(&mut id_chars, &num);
                            let f = Finding {
                                id: string_of(&id_chars),
                                finding_type: string_of(&ftype),
                                title: string_of(&issue),
                                priority: sev_priority_exec(&sev, default_priority),
                                file: string_of(&file),
                                line: line_no,
                                snippet: None,
                                description: string_of(&issue),
                                remediation: string_of(&rec),
                                acceptance_criteria: Vec::new(),
                                references: Vec::new(),
                            };
                            proof {
                                assert(id_chars@ =~= upper_seq(reviewer_id@) + seq!['-']
                                    + dec_digits((findings@.len() + 1) as int));
                            }
                            findings.push(f);
                        }
                    },
                }
            },
        }
        li = li + 1;
        proof {
            lemma_md_scan_step(all_lines, li - 1, findings@.len() as int);
            assert(all_lines.take(li as int).drop_last() =~= all_lines.take(li - 1));
            assert(all_lines.take(li as int).last() == all_lines[li - 1]);
        }
    }
    proof {
        assert(all_lines.take(nlines as int) =~= all_lines);
    }
    if findings.len() == 0 {
        None
    } else {
        Some(findings)
    }
}

/// Scanning one more line extends the scanned prefix as `md_scan` says.
proof fn lemma_md_scan_step(lines: Seq<Seq<char>>, i: int, _hint: int)
    requires
        0 <= i < lines.len(),
    ensures
        md_scan(lines.take(i + 1)) == (match md_row(lines[i]) {
            None => md_scan(lines.take(i)),
            Some(row) => {
                if digits_val(row.digits) > u32::MAX {
                    None
                } else if lower_seq(row.file) == file_word() {
                    md_scan(lines.take(i))
                } else {
                    match md_scan(lines.take(i)) {
                        None => None,
                        Some(t) => Some(t + seq![row]),
                    }
                }
            },
        }),
{
    lemma_md_scan_snoc(lines.take(i + 1));
    assert(lines.take(i + 1).drop_last() =~= lines.take(i));
    assert(lines.take(i + 1).last() == lines[i]);
}

/// `md_scan` over a non-empty list, in terms of its last line.
proof fn lemma_md_scan_snoc(lines: Seq<Seq<char>>)
    requires
        lines.len() >= 1,
    ensures
        md_scan(lines) == (match md_row(lines.last()) {
            None => md_scan(lines.drop_last()),
            Some(row) => {
                if digits_val(row.digits) > u32::MAX {
                    None
                } else if lower_seq(row.file) == file_word() {
                    md_scan(lines.drop_last())
                } else {
                    match md_scan(lines.drop_last()) {
                        None => None,
                        Some(t) => Some(t + seq![row]),
                    }
                }
            },
        }),
    decreases lines.len(),
{
    if lines.len() == 1 {
        assert(lines.drop_first() =~= Seq::<Seq<char>>::empty());
        assert(lines.drop_last() =~= Seq::<Seq<char>>::empty());
        assert(md_scan(lines.drop_last()) == Some(Seq::<MdRow>::empty()));
        assert(lines[0] == lines.last());
        match md_row(lines[0]) {
            None => {},
            Some(row) => {
                if digits_val(row.digits) <= u32::MAX && lower_seq(row.file) != file_word() {
                    assert(md_scan(lines.drop_first()) == Some(Seq::<MdRow>::empty()));
                    assert(seq![row] + Seq::<MdRow>::empty() =~= Seq::<MdRow>::empty() + seq![
                        row,
                    ]);
                }
            },
        }
    } else {
        let rest = lines.drop_first();
        lemma_md_scan_snoc(rest);
        assert(rest.last() == lines.last());
        assert(rest.drop_last() =~= lines.drop_last().drop_first());
        assert(lines.drop_last()[0] == lines[0]);
        assert(lines.drop_last().len() >= 1);
        assert(lines.drop_last().drop_first() =~= rest.drop_last());
        match md_row(lines[0]) {
            None => {},
            Some(row0) => {
                if digits_val(row0.digits) <= u32::MAX && lower_seq(row0.file) != file_word() {
                    match md_row(lines.last()) {
                        None => {},
                        Some(rowl) => {
                            if digits_val(rowl.digits) <= u32::MAX && lower_seq(rowl.file)
                                != file_word() {
                                match md_scan(rest.drop_last()) {
                                    None => {},
                                    Some(t) => {
                                        assert(seq![row0] + (t + seq![rowl]) =~= (seq![row0] + t)
                                            + seq![rowl]);
                                    },
                                }
                            }
                        },
                    }
                }
            },
        }
    }
}

/// A row with an oversized line number anywhere in the list aborts the
/// whole scan.
proof fn lemma_md_scan_abort(lines: Seq<Seq<char>>, i: int)
    requires
        0 <= i < lines.len(),
        md_row(lines[i]) matches Some(row) && digits_val(row.digits) > u32::MAX,
    ensures
        md_scan(lines) is None,
    decreases lines.len(),
{
    if i == 0 {
    } else {
        lemma_md_scan_abort(lines.drop_first(), i - 1);
        assert(lines.drop_first()[i - 1] == lines[i]);
    }
}

} // verus!
