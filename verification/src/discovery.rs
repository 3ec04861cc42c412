//! File-set shaping for units: chunking a file list into bounded groups,
//! and merging resolved scope file lists into one deduplicated, ordered list.
//!
//! Walking directories and diffing against a git base happen outside the
//! library; this module works on the resolved lists they hand over.

use vstd::prelude::*;
use crate::config::Reviewer;
use crate::runner::contains_str;
use crate::strutil::str_eq;

verus! {

/// Clones a string list.
pub fn clone_strings(v: &Vec<String>) -> (r: Vec<String>)
    ensures
        r@ == v@,
{
    let n = v.len();
    let mut r: Vec<String> = Vec::new();
    let mut i: usize = 0;
    while i < n
        invariant
            0 <= i <= n == v@.len(),
            r@ == v@.take(i as int),
        decreases n - i,
    {
        r.push(v[i].clone());
        i = i + 1;
        proof {
            assert(r@ =~= v@.take(i as int));
        }
    }
    proof {
        assert(v@.take(n as int) =~= v@);
    }
    r
}

/// Copy of `v[from..to]` as a fresh vector.
pub fn subrange_strings(v: &Vec<String>, from: usize, to: usize) -> (r: Vec<String>)
    requires
        from <= to <= v@.len(),
    ensures
        r@ == v@.subrange(from as int, to as int),
{
    let mut r: Vec<String> = Vec::new();
    let mut i: usize = from;
    while i < to
        invariant
            from <= i <= to <= v@.len(),
            r@ == v@.subrange(from as int, i as int),
        decreases to - i,
    {
        r.push(v[i].clone());
        i = i + 1;
        proof {
            assert(r@ =~= v@.subrange(from as int, i as int));
        }
    }
    r
}

/// The upper end of chunk `k`: `min(n, (k + 1) * m)`.
pub open spec fn chunk_end(n: int, m: int, k: int) -> int {
    if (k + 1) * m <= n {
        (k + 1) * m
    } else {
        n
    }
}

/// Splits `files` into groups of at most `max_size` files, in order.
///
/// With `max_size == 0`, or when the list already fits, the result is the
/// single group holding the whole list. Otherwise the group count `g` is
/// exactly `ceil(n / max_size)` (characterized by
/// `(g-1)*max_size < n <= g*max_size`), and group `k` is exactly
/// `files[k*m .. min(n, (k+1)*m)]`: every group but the last holds
/// `max_size` files and the last holds the remainder.
pub fn chunk_files(files: &Vec<String>, max_size: usize) -> (r: Vec<Vec<String>>)
    ensures
        (max_size == 0 || files@.len() <= max_size) ==> r@.len() == 1 && r@[0]@ == files@,
        !(max_size == 0 || files@.len() <= max_size) ==> {
            let n = files@.len() as int;
            let m = max_size as int;
            let g = r@.len() as int;
            &&& (g - 1) * m < n <= g * m
            &&& forall|k: int|
                0 <= k < g ==> r@[k]@ == files@.subrange(k * m, chunk_end(n, m, k))
        },
{
    let n = files.len();
    if max_size == 0 || n <= max_size {
        let mut r: Vec<Vec<String>> = Vec::new();
        r.push(clone_strings(files));
        return r;
    }
    let m = max_size;
    let mut r: Vec<Vec<String>> = Vec::new();
    let mut i: usize = 0;
    proof {
        assert(0 == 0 * (m as int));
    }
    while i < n
        invariant
            0 < m < n == files@.len(),
            0 <= i <= n,
            i as int == r@.len() * (m as int) || (i == n && n < r@.len() * (m as int) && (
            r@.len() - 1) * (m as int) < n),
            forall|k: int|
                0 <= k < r@.len() ==> r@[k]@ == files@.subrange(
                    k * (m as int),
                    chunk_end(n as int, m as int, k),
                ),
        decreases n - i,
    {
        proof {
            assert(i as int == r@.len() * (m as int));
        }
        let end = if m <= n - i {
            i + m
        } else {
            n
        };
        let group = subrange_strings(files, i, end);
        let ghost gk = r@.len() as int;
        proof {
            assert((gk + 1) * (m as int) == gk * (m as int) + m) by (nonlinear_arith);
            assert(end as int == chunk_end(n as int, m as int, gk));
        }
        r.push(group);
        i = end;
        proof {
            assert forall|k: int|
                0 <= k < r@.len() implies r@[k]@ == files@.subrange(
                    k * (m as int),
                    chunk_end(n as int, m as int, k),
                ) by {
                if k < gk {
                } else {
                    assert(k == gk);
                    assert(r@[k]@ == group@);
                }
            };
            if i < n {
                assert(i as int == r@.len() * (m as int));
            } else {
                if end as int == gk * (m as int) + m {
                    assert(i as int == r@.len() * (m as int));
                } else {
                    assert(i == n);
                    assert(n < (gk + 1) * (m as int));
                    assert((r@.len() - 1) * (m as int) == gk * (m as int));
                }
            }
        }
    }
    proof {
        let nn = n as int;
        let mm = m as int;
        let g = r@.len() as int;
        if i as int == g * mm {
            assert((g - 1) * mm == g * mm - mm) by (nonlinear_arith);
        }
        assert((g - 1) * mm < nn <= g * mm);
    }
    r
}

/// Group counts and sizes of the chunking split: with `0 < m < n`, the list
/// splits into `ceil(n / m)` groups; every group but the last holds `m`
/// files, and the last holds `n mod m` files when `m` does not divide `n`
/// (and `m` files when it does).
pub proof fn lemma_chunk_shape(n: int, m: int, g: int, k: int)
    requires
        0 < m < n,
        (g - 1) * m < n <= g * m,
        0 <= k < g,
    ensures
        g == if n % m == 0 {
            n / m
        } else {
            n / m + 1
        },
        chunk_end(n, m, k) - k * m == if k == g - 1 && n % m != 0 {
            n % m
        } else {
            m
        },
{
    let q = n / m;
    let r0 = n % m;
    assert(n == m * q + r0 && 0 <= r0 < m) by {
        vstd::arithmetic::div_mod::lemma_fundamental_div_mod(n, m);
        vstd::arithmetic::div_mod::lemma_mod_bound(n, m);
    }
    if r0 == 0 {
        assert(g == q) by (nonlinear_arith)
            requires
                n == m * q,
                (g - 1) * m < n <= g * m,
                m > 0,
        ;
    } else {
        assert(g == q + 1) by (nonlinear_arith)
            requires
                n == m * q + r0,
                0 < r0 < m,
                (g - 1) * m < n <= g * m,
                m > 0,
        ;
    }
    if k < g - 1 {
        assert((k + 1) * m <= (g - 1) * m) by (nonlinear_arith)
            requires
                k + 1 <= g - 1,
                m > 0,
        ;
        assert(chunk_end(n, m, k) == (k + 1) * m);
        assert((k + 1) * m - k * m == m) by (nonlinear_arith);
    } else {
        assert(k == g - 1);
        if r0 == 0 {
            assert((k + 1) * m == n && n - k * m == m) by (nonlinear_arith)
                requires
                    k + 1 == g,
                    g == q,
                    n == m * q,
                    m > 0,
            ;
        } else {
            assert(n < (k + 1) * m && n - k * m == r0) by (nonlinear_arith)
                requires
                    k + 1 == g,
                    g == q + 1,
                    n == m * q + r0,
                    0 < r0 < m,
            ;
        }
    }
}

/// One scope's resolved file list, as the walker hands it over.
#[derive(Debug, Clone)]
pub struct ScopeFiles {
    pub name: String,
    pub files: Vec<String>,
}

/// Lexicographic order on character sequences, by code point.
pub open spec fn lex_le(a: Seq<char>, b: Seq<char>) -> bool
    decreases a.len(),
{
    if a.len() == 0 {
        true
    } else if b.len() == 0 {
        false
    } else if a[0] != b[0] {
        a[0] < b[0]
    } else {
        lex_le(a.drop_first(), b.drop_first())
    }
}

pub proof fn lemma_lex_total(a: Seq<char>, b: Seq<char>)
    ensures
        lex_le(a, b) || lex_le(b, a),
    decreases a.len(),
{
    if a.len() > 0 && b.len() > 0 && a[0] == b[0] {
        lemma_lex_total(a.drop_first(), b.drop_first());
    }
}

pub proof fn lemma_lex_antisym(a: Seq<char>, b: Seq<char>)
    requires
        lex_le(a, b),
        lex_le(b, a),
    ensures
        a == b,
    decreases a.len(),
{
    if a.len() == 0 {
        assert(b.len() == 0);
        assert(a =~= b);
    } else {
        assert(b.len() > 0);
        if a[0] != b[0] {
            assert(a[0] < b[0]);
            assert(b[0] < a[0]);
            assert(false);
        }
        lemma_lex_antisym(a.drop_first(), b.drop_first());
        assert(a.drop_first() == b.drop_first());
        assert(a.drop_first().len() == a.len() - 1);
        assert(b.drop_first().len() == b.len() - 1);
        assert(a.len() == b.len());
        assert forall|k: int| 0 <= k < a.len() implies a[k] == b[k] by {
            if k > 0 {
                assert(a.drop_first()[k - 1] == a[k]);
                assert(b.drop_first()[k - 1] == b[k]);
            }
        };
        assert(a =~= b);
    }
}

pub proof fn lemma_lex_trans(a: Seq<char>, b: Seq<char>, c: Seq<char>)
    requires
        lex_le(a, b),
        lex_le(b, c),
    ensures
        lex_le(a, c),
    decreases a.len(),
{
    if a.len() > 0 {
        assert(b.len() > 0);
        assert(c.len() > 0);
        if a[0] == b[0] && b[0] == c[0] {
            lemma_lex_trans(a.drop_first(), b.drop_first(), c.drop_first());
        }
    }
}

/// Compares character vectors lexicographically.
pub fn lex_le_chars(a: &Vec<char>, b: &Vec<char>) -> (r: bool)
    ensures
        r == lex_le(a@, b@),
{
    let an = a.len();
    let bn = b.len();
    let mut i: usize = 0;
    proof {
        assert(a@.skip(0) =~= a@);
        assert(b@.skip(0) =~= b@);
    }
    while i < an && i < bn
        invariant
            0 <= i <= an == a@.len(),
            i <= bn == b@.len(),
            lex_le(a@, b@) == lex_le(a@.skip(i as int), b@.skip(i as int)),
        decreases an - i,
    {
        proof {
            assert(a@.skip(i as int)[0] == a@[i as int]);
            assert(b@.skip(i as int)[0] == b@[i as int]);
        }
        if a[i] != b[i] {
            return a[i] < b[i];
        }
        i = i + 1;
        proof {
            assert(a@.skip(i - 1).drop_first() =~= a@.skip(i as int));
            assert(b@.skip(i - 1).drop_first() =~= b@.skip(i as int));
        }
    }
    proof {
        if i == an {
            assert(a@.skip(i as int).len() == 0);
        } else {
            assert(b@.skip(i as int).len() == 0);
            assert(a@.skip(i as int).len() > 0);
        }
    }
    i == an
}

/// A strictly ascending (hence duplicate-free) file list.
pub open spec fn strictly_sorted(s: Seq<String>) -> bool {
    forall|k1: int, k2: int|
        0 <= k1 < k2 < s.len() ==> #[trigger] lex_le(s[k1]@, s[k2]@) && s[k1]@ != s[k2]@
}

proof fn lemma_sorted_at(s: Seq<String>, i: int, j: int)
    requires
        strictly_sorted(s),
        0 <= i < j < s.len(),
    ensures
        lex_le(s[i]@, s[j]@),
        s[i]@ != s[j]@,
{
    assert(lex_le(s[i]@, s[j]@) && s[i]@ != s[j]@);
}

/// Finds where the candidate belongs in a sorted list, or that an equal
/// entry already exists.
fn find_insert_pos(out: &Vec<String>, cand: &String) -> (r: (usize, bool))
    ensures
        r.1 ==> contains_str(out@, cand@),
        !r.1 ==> {
            &&& r.0 <= out@.len()
            &&& forall|k: int| 0 <= k < r.0 ==> lex_le(out@[k]@, cand@) && out@[k]@ != cand@
            &&& (r.0 as int) < out@.len() ==> !lex_le(out@[r.0 as int]@, cand@) && out@[
                r.0 as int
            ]@ != cand@
        },
{
    let cand_chars = crate::strutil::string_chars(cand);
    let n = out.len();
    let mut p: usize = 0;
    while p < n
        invariant
            0 <= p <= n == out@.len(),
            cand_chars@ == cand@,
            forall|k: int| 0 <= k < p ==> lex_le(out@[k]@, cand@) && out@[k]@ != cand@,
        decreases n - p,
    {
        if str_eq(out[p].as_str(), cand.as_str()) {
            proof {
                assert(out@[p as int]@ == cand@);
                assert(contains_str(out@, cand@));
            }
            return (p, true);
        }
        let elem_chars = crate::strutil::string_chars(&out[p]);
        if !lex_le_chars(&elem_chars, &cand_chars) {
            return (p, false);
        }
        p = p + 1;
    }
    (p, false)
}

/// Inserts a file into a strictly sorted list, keeping it sorted and
/// duplicate-free; the list's contents gain exactly the candidate.
pub fn insert_sorted_dedup(out: &mut Vec<String>, cand: &String)
    requires
        strictly_sorted(old(out)@),
    ensures
        strictly_sorted(final(out)@),
        forall|x: Seq<char>|
            #[trigger] contains_str(final(out)@, x) <==> (contains_str(old(out)@, x) || x
                == cand@),
{
    let probe = find_insert_pos(out, cand);
    let p = probe.0;
    if probe.1 {
        return ;
    }
    let ghost olds = out@;
    let ghost pos = p as int;
    proof {
        if pos < olds.len() {
            lemma_lex_total(olds[pos]@, cand@);
            assert(lex_le(cand@, olds[pos]@));
        }
    }
    out.insert(p, cand.clone());
    proof {
        olds.insert_ensures(pos, *cand);
        assert(out@ == olds.insert(pos, *cand));
        let news = out@;
        assert(news[pos]@ == cand@);
        assert forall|k1: int, k2: int|
            0 <= k1 < k2 < news.len() implies #[trigger] lex_le(news[k1]@, news[k2]@) && news[k1]@
            != news[k2]@ by {
            if k2 < pos {
                assert(news[k1] == olds[k1]);
                assert(news[k2] == olds[k2]);
                lemma_sorted_at(olds, k1, k2);
            } else if k1 < pos && k2 == pos {
                assert(news[k1] == olds[k1]);
            } else if k1 < pos && k2 > pos {
                assert(news[k1] == olds[k1]);
                assert(news[k2] == olds[k2 - 1]);
                lemma_sorted_at(olds, k1, k2 - 1);
            } else if k1 == pos {
                assert(news[k1]@ == cand@);
                assert(news[k2] == olds[k2 - 1]);
                let e = olds[k2 - 1];
                if k2 - 1 == pos {
                    assert(lex_le(cand@, e@));
                    assert(cand@ != e@);
                } else {
                    lemma_sorted_at(olds, pos, k2 - 1);
                    assert(lex_le(olds[pos]@, e@) && olds[pos]@ != e@);
                    lemma_lex_trans(cand@, olds[pos]@, e@);
                    assert(cand@ != e@) by {
                        if cand@ == e@ {
                            assert(lex_le(olds[pos]@, cand@));
                            lemma_lex_antisym(olds[pos]@, cand@);
                        }
                    }
                }
            } else {
                assert(news[k1] == olds[k1 - 1]);
                assert(news[k2] == olds[k2 - 1]);
                lemma_sorted_at(olds, k1 - 1, k2 - 1);
            }
        };
        assert forall|x: Seq<char>|
            #[trigger] contains_str(news, x) <==> (contains_str(olds, x) || x == cand@) by {
            if contains_str(news, x) {
                let w = choose|w: int| 0 <= w < news.len() && news[w]@ == x;
                if w == pos {
                } else if w < pos {
                    assert(olds[w]@ == x);
                } else {
                    assert(olds[w - 1]@ == x);
                }
            }
            if contains_str(olds, x) {
                let w = choose|w: int| 0 <= w < olds.len() && olds[w]@ == x;
                if w < pos {
                    assert(news[w]@ == x);
                } else {
                    assert(news[w + 1]@ == x);
                }
            }
            if x == cand@ {
                assert(news[pos]@ == x);
            }
        };
    }
}

/// Whether a file passes the changed-files filter.
pub open spec fn in_changed(changed: Option<Vec<String>>, x: Seq<char>) -> bool {
    match changed {
        Some(c) => contains_str(c@, x),
        None => true,
    }
}

/// Whether a run of this unit takes the file: it lies in a resolved scope
/// the unit references and passes the changed-files filter.
pub open spec fn discovered(
    reviewer: Reviewer,
    resolved: Seq<ScopeFiles>,
    changed: Option<Vec<String>>,
    x: Seq<char>,
) -> bool {
    (exists|i: int, j: int|
        0 <= i < resolved.len() && contains_str(reviewer.scopes@, resolved[i].name@) && 0 <= j
            < resolved[i].files@.len() && resolved[i].files@[j]@ == x) && in_changed(changed, x)
}

/// Whether the pair `(i, j)` lies before position `(si, fj)` in the scan.
pub open spec fn pair_before(i: int, j: int, si: int, fj: int) -> bool {
    i < si || (i == si && j < fj)
}

/// `discovered` restricted to the pairs before `(si, fj)`.
pub open spec fn discovered_upto(
    reviewer: Reviewer,
    resolved: Seq<ScopeFiles>,
    changed: Option<Vec<String>>,
    si: int,
    fj: int,
    x: Seq<char>,
) -> bool {
    (exists|i: int, j: int|
        0 <= i < resolved.len() && pair_before(i, j, si, fj) && contains_str(
            reviewer.scopes@,
            resolved[i].name@,
        ) && 0 <= j < resolved[i].files@.len() && resolved[i].files@[j]@ == x) && in_changed(
        changed,
        x,
    )
}

/// Merges the resolved scope file lists of the scopes this unit
/// references into one list: exactly the files the run takes, each once,
/// in ascending order.
#[verifier::rlimit(60)]
pub fn discover_files_for_reviewer(
    reviewer: &Reviewer,
    resolved: &Vec<ScopeFiles>,
    changed: &Option<Vec<String>>,
) -> (r: Vec<String>)
    ensures
        strictly_sorted(r@),
        forall|x: Seq<char>|
            #[trigger] contains_str(r@, x) <==> discovered(*reviewer, resolved@, *changed, x),
{
    let ns = resolved.len();
    let mut out: Vec<String> = Vec::new();
    let mut si: usize = 0;
    while si < ns
        invariant
            0 <= si <= ns == resolved@.len(),
            strictly_sorted(out@),
            forall|x: Seq<char>|
                #[trigger] contains_str(out@, x) <==> discovered_upto(
                    *reviewer,
                    resolved@,
                    *changed,
                    si as int,
                    0,
                    x,
                ),
        decreases ns - si,
    {
        let scope_selected = crate::runner::contains_str_exec(
            &reviewer.scopes,
            resolved[si].name.as_str(),
        );
        let nf = resolved[si].files.len();
        let mut fj: usize = 0;
        while fj < nf
            invariant
                0 <= si < ns == resolved@.len(),
                0 <= fj <= nf == resolved@[si as int].files@.len(),
                scope_selected == contains_str(reviewer.scopes@, resolved@[si as int].name@),
                strictly_sorted(out@),
                forall|x: Seq<char>|
                    #[trigger] contains_str(out@, x) <==> discovered_upto(
                        *reviewer,
                        resolved@,
                        *changed,
                        si as int,
                        fj as int,
                        x,
                    ),
            decreases nf - fj,
        {
            let f = &resolved[si].files[fj];
            let passes = match changed {
                Some(c) => crate::runner::contains_str_exec(c, f.as_str()),
                None => true,
            };
            let ghost before = out@;
            if scope_selected && passes {
                insert_sorted_dedup(&mut out, f);
            }
            fj = fj + 1;
            proof {
                let fx = resolved@[si as int].files@[fj - 1]@;
                assert forall|x: Seq<char>|
                    #[trigger] contains_str(out@, x) <==> discovered_upto(
                        *reviewer,
                        resolved@,
                        *changed,
                        si as int,
                        fj as int,
                        x,
                    ) by {
                    if contains_str(out@, x) {
                        if contains_str(before, x) {
                            assert(discovered_upto(
                                *reviewer,
                                resolved@,
                                *changed,
                                si as int,
                                fj - 1,
                                x,
                            ));
                            let (i0, j0) = choose|i0: int, j0: int|
                                0 <= i0 < resolved@.len() && pair_before(
                                    i0,
                                    j0,
                                    si as int,
                                    fj - 1,
                                ) && contains_str(reviewer.scopes@, resolved@[i0].name@) && 0 <= j0
                                    < resolved@[i0].files@.len() && resolved@[i0].files@[j0]@ == x;
                            assert(pair_before(i0, j0, si as int, fj as int));
                        } else {
                            assert(scope_selected && x == fx);
                            assert(pair_before(si as int, fj - 1, si as int, fj as int));
                        }
                    }
                    if discovered_upto(*reviewer, resolved@, *changed, si as int, fj as int, x) {
                        let (i0, j0) = choose|i0: int, j0: int|
                            0 <= i0 < resolved@.len() && pair_before(i0, j0, si as int, fj as int)
                                && contains_str(reviewer.scopes@, resolved@[i0].name@) && 0 <= j0
                                < resolved@[i0].files@.len() && resolved@[i0].files@[j0]@ == x;
                        if pair_before(i0, j0, si as int, fj - 1) {
                            assert(discovered_upto(
                                *reviewer,
                                resolved@,
                                *changed,
                                si as int,
                                fj - 1,
                                x,
                            ));
                            assert(contains_str(before, x));
                        } else {
                            assert(i0 == si as int && j0 == fj - 1);
                            assert(x == fx);
                            assert(contains_str(reviewer.scopes@, resolved@[si as int].name@));
                            assert(in_changed(*changed, x));
                            assert(contains_str(out@, x));
                        }
                    }
                };
            }
        }
        si = si + 1;
        proof {
            assert forall|x: Seq<char>|
                #[trigger] contains_str(out@, x) <==> discovered_upto(
                    *reviewer,
                    resolved@,
                    *changed,
                    si as int,
                    0,
                    x,
                ) by {
                if contains_str(out@, x) {
                    let (i0, j0) = choose|i0: int, j0: int|
                        0 <= i0 < resolved@.len() && pair_before(i0, j0, si - 1, nf as int)
                            && contains_str(reviewer.scopes@, resolved@[i0].name@) && 0 <= j0
                            < resolved@[i0].files@.len() && resolved@[i0].files@[j0]@ == x;
                    assert(pair_before(i0, j0, si as int, 0));
                }
                if discovered_upto(*reviewer, resolved@, *changed, si as int, 0, x) {
                    let (i0, j0) = choose|i0: int, j0: int|
                        0 <= i0 < resolved@.len() && pair_before(i0, j0, si as int, 0)
                            && contains_str(reviewer.scopes@, resolved@[i0].name@) && 0 <= j0
                            < resolved@[i0].files@.len() && resolved@[i0].files@[j0]@ == x;
                    if i0 == si - 1 {
                        assert(pair_before(i0, j0, si - 1, nf as int));
                    } else {
                        assert(pair_before(i0, j0, si - 1, nf as int));
                    }
                    assert(discovered_upto(*reviewer, resolved@, *changed, si - 1, nf as int, x));
                }
            };
        }
    }
    proof {
        assert forall|x: Seq<char>|
            #[trigger] contains_str(out@, x) <==> discovered(*reviewer, resolved@, *changed, x) by {
            if contains_str(out@, x) {
                let (i0, j0) = choose|i0: int, j0: int|
                    0 <= i0 < resolved@.len() && pair_before(i0, j0, ns as int, 0) && contains_str(
                        reviewer.scopes@,
                        resolved@[i0].name@,
                    ) && 0 <= j0 < resolved@[i0].files@.len() && resolved@[i0].files@[j0]@ == x;
                assert(discovered(*reviewer, resolved@, *changed, x));
            }
            if discovered(*reviewer, resolved@, *changed, x) {
                let (i0, j0) = choose|i0: int, j0: int|
                    0 <= i0 < resolved@.len() && contains_str(reviewer.scopes@, resolved@[i0].name@)
                        && 0 <= j0 < resolved@[i0].files@.len() && resolved@[i0].files@[j0]@ == x;
                assert(pair_before(i0, j0, ns as int, 0));
                assert(discovered_upto(*reviewer, resolved@, *changed, ns as int, 0, x));
            }
        };
    }
    out
}

} // verus!

