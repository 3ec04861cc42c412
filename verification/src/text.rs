//! Character-level text utilities: whitespace classification, trimming,
//! whitespace normalization, ASCII case mapping and decimal formatting.
//!
//! All functions here work on `Vec<char>` / `Seq<char>` so that their
//! behaviour is fully specified; the bridges to and from `String` live in
//! the string-utility module.

use vstd::prelude::*;

verus! {

/// The Unicode white-space characters, as Rust's `char::is_whitespace`
/// recognises them.
pub open spec fn is_ws(c: char) -> bool {
    c == ' ' || c == '\t' || c == '\n' || c == '\r' || c == '\u{000B}' || c == '\u{000C}'
        || c == '\u{0085}' || c == '\u{00A0}' || c == '\u{1680}'
        || ('\u{2000}' <= c && c <= '\u{200A}') || c == '\u{2028}' || c == '\u{2029}'
        || c == '\u{202F}' || c == '\u{205F}' || c == '\u{3000}'
}

/// Executable mirror of `is_ws`.
pub fn is_ws_char(c: char) -> (r: bool)
    ensures
        r == is_ws(c),
{
    c == ' ' || c == '\t' || c == '\n' || c == '\r' || c == '\u{000B}' || c == '\u{000C}'
        || c == '\u{0085}' || c == '\u{00A0}' || c == '\u{1680}'
        || ('\u{2000}' <= c && c <= '\u{200A}') || c == '\u{2028}' || c == '\u{2029}'
        || c == '\u{202F}' || c == '\u{205F}' || c == '\u{3000}'
}

/// `s` with its leading white space removed.
pub open spec fn trim_front(s: Seq<char>) -> Seq<char>
    decreases s.len(),
{
    if s.len() > 0 && is_ws(s[0]) {
        trim_front(s.drop_first())
    } else {
        s
    }
}

/// `s` with its trailing white space removed.
pub open spec fn trim_back(s: Seq<char>) -> Seq<char>
    decreases s.len(),
{
    if s.len() > 0 && is_ws(s[s.len() - 1]) {
        trim_back(s.drop_last())
    } else {
        s
    }
}

/// `s` with white space removed from both ends.
pub open spec fn trim_ws(s: Seq<char>) -> Seq<char> {
    trim_back(trim_front(s))
}

proof fn lemma_trim_front_range(s: Seq<char>, i: int)
    requires
        0 <= i <= s.len(),
        forall|k: int| 0 <= k < i ==> is_ws(s[k]),
        i < s.len() ==> !is_ws(s[i]),
    ensures
        trim_front(s) == s.subrange(i, s.len() as int),
    decreases s.len(),
{
    if i == 0 {
        if s.len() > 0 && is_ws(s[0]) {
            assert(false);
        }
        assert(s.subrange(0, s.len() as int) =~= s);
    } else {
        assert(is_ws(s[0]));
        lemma_trim_front_range(s.drop_first(), i - 1);
        assert(s.drop_first().subrange(i - 1, s.drop_first().len() as int) =~= s.subrange(
            i,
            s.len() as int,
        ));
    }
}

proof fn lemma_trim_back_range(s: Seq<char>, j: int)
    requires
        0 <= j <= s.len(),
        forall|k: int| j <= k < s.len() ==> is_ws(s[k]),
        j > 0 ==> !is_ws(s[j - 1]),
    ensures
        trim_back(s) == s.subrange(0, j),
    decreases s.len(),
{
    if j == s.len() {
        if s.len() > 0 && is_ws(s[s.len() - 1]) {
            assert(false);
        }
        assert(s.subrange(0, s.len() as int) =~= s);
    } else {
        assert(is_ws(s[s.len() - 1]));
        lemma_trim_back_range(s.drop_last(), j);
        assert(s.drop_last().subrange(0, j) =~= s.subrange(0, j));
    }
}

/// Copy of `s[from..to]` as a fresh vector.
pub fn subrange_vec(s: &Vec<char>, from: usize, to: usize) -> (r: Vec<char>)
    requires
        from <= to <= s@.len(),
    ensures
        r@ == s@.subrange(from as int, to as int),
{
    let mut r: Vec<char> = Vec::new();
    let mut i: usize = from;
    while i < to
        invariant
            from <= i <= to <= s@.len(),
            r@ == s@.subrange(from as int, i as int),
        decreases to - i,
    {
        r.push(s[i]);
        i = i + 1;
        proof {
            assert(r@ =~= s@.subrange(from as int, i as int));
        }
    }
    r
}

/// Trims white space from both ends of `s`.
pub fn trim_chars(s: &Vec<char>) -> (r: Vec<char>)
    ensures
        r@ == trim_ws(s@),
{
    let n = s.len();
    let mut i: usize = 0;
    while i < n && is_ws_char(s[i])
        invariant
            0 <= i <= n == s@.len(),
            forall|k: int| 0 <= k < i ==> is_ws(s@[k]),
        decreases n - i,
    {
        i = i + 1;
    }
    let mut j: usize = n;
    while j > i && is_ws_char(s[j - 1])
        invariant
            0 <= i <= j <= n == s@.len(),
            forall|k: int| 0 <= k < i ==> is_ws(s@[k]),
            i < n ==> !is_ws(s@[i as int]),
            forall|k: int| j <= k < n ==> is_ws(s@[k]),
        decreases j,
    {
        j = j - 1;
    }
    proof {
        lemma_trim_front_range(s@, i as int);
        let t = s@.subrange(i as int, n as int);
        if j == i {
            lemma_trim_back_range(t, 0);
        } else {
            lemma_trim_back_range(t, j - i);
        }
        assert(t.subrange(0, j - i) =~= s@.subrange(i as int, j as int));
    }
    subrange_vec(s, i, j)
}

/// Index of the first white-space character of `s`, or `s.len()` if none.
pub open spec fn first_ws(s: Seq<char>) -> int
    decreases s.len(),
{
    if s.len() == 0 {
        0
    } else if is_ws(s[0]) {
        0
    } else {
        1 + first_ws(s.drop_first())
    }
}

proof fn lemma_first_ws_bounds(s: Seq<char>)
    ensures
        0 <= first_ws(s) <= s.len(),
        forall|k: int| 0 <= k < first_ws(s) ==> !is_ws(s[k]),
        first_ws(s) < s.len() ==> is_ws(s[first_ws(s)]),
    decreases s.len(),
{
    if s.len() > 0 && !is_ws(s[0]) {
        lemma_first_ws_bounds(s.drop_first());
        assert forall|k: int| 0 <= k < first_ws(s) implies !is_ws(s[k]) by {
            if k >= 1 {
                assert(s.drop_first()[k - 1] == s[k]);
            }
        };
        if first_ws(s) < s.len() {
            assert(s.drop_first()[first_ws(s.drop_first())] == s[first_ws(s)]);
        }
    }
}

proof fn lemma_first_ws_at(s: Seq<char>, i: int)
    requires
        0 <= i <= s.len(),
        forall|k: int| 0 <= k < i ==> !is_ws(s[k]),
        i < s.len() ==> is_ws(s[i]),
    ensures
        first_ws(s) == i,
    decreases s.len(),
{
    if s.len() == 0 || is_ws(s[0]) {
    } else {
        lemma_first_ws_at(s.drop_first(), i - 1);
    }
}

/// The maximal runs of non-white-space characters of `s`, in order.
pub open spec fn words_of(s: Seq<char>) -> Seq<Seq<char>>
    decreases s.len(),
    via words_of_dec
{
    if s.len() == 0 {
        Seq::empty()
    } else if is_ws(s[0]) {
        words_of(s.drop_first())
    } else {
        let k = first_ws(s);
        seq![s.take(k)] + words_of(s.skip(k))
    }
}

#[via_fn]
proof fn words_of_dec(s: Seq<char>) {
    if s.len() > 0 && !is_ws(s[0]) {
        lemma_first_ws_bounds(s);
    }
}

/// The words joined by single spaces.
pub open spec fn join_space(ws: Seq<Seq<char>>) -> Seq<char>
    decreases ws.len(),
{
    if ws.len() == 0 {
        Seq::empty()
    } else if ws.len() == 1 {
        ws[0]
    } else {
        ws[0] + seq![' '] + join_space(ws.drop_first())
    }
}

/// All white-space runs of `s` collapsed to single spaces, with leading and
/// trailing white space dropped: the words of `s` joined by one space each.
pub open spec fn normalize_ws(s: Seq<char>) -> Seq<char> {
    join_space(words_of(s))
}

pub proof fn lemma_words_take_word(s: Seq<char>, k: int)
    requires
        0 < k <= s.len(),
        forall|j: int| 0 <= j < k ==> !is_ws(s[j]),
        k < s.len() ==> is_ws(s[k]),
    ensures
        words_of(s) == seq![s.take(k)] + words_of(s.skip(k)),
{
    lemma_first_ws_at(s, k);
}

proof fn lemma_join_snoc(ws: Seq<Seq<char>>, w: Seq<char>)
    ensures
        join_space(ws.push(w)) == if ws.len() == 0 {
            w
        } else {
            join_space(ws) + seq![' '] + w
        },
    decreases ws.len(),
{
    let p = ws.push(w);
    if ws.len() == 0 {
        assert(p.len() == 1);
        assert(p[0] == w);
    } else if ws.len() == 1 {
        assert(p.len() == 2);
        assert(p[0] == ws[0]);
        assert(p.drop_first() =~= seq![w]);
        assert(join_space(p.drop_first()) == w);
    } else {
        lemma_join_snoc(ws.drop_first(), w);
        assert(p.drop_first() =~= ws.drop_first().push(w));
        assert(p[0] == ws[0]);
    }
}

/// Collapses white-space runs to single spaces and trims the ends.
pub fn normalize_ws_chars(s: &Vec<char>) -> (r: Vec<char>)
    ensures
        r@ == normalize_ws(s@),
{
    let n = s.len();
    let mut out: Vec<char> = Vec::new();
    let mut i: usize = 0;
    let ghost mut emitted: Seq<Seq<char>> = Seq::empty();
    proof {
        assert(s@.skip(0) =~= s@);
    }
    while i < n
        invariant
            0 <= i <= n == s@.len(),
            words_of(s@) == emitted + words_of(s@.skip(i as int)),
            out@ == join_space(emitted),
            emitted.len() == 0 <==> out@.len() == 0,
        decreases n - i,
    {
        if is_ws_char(s[i]) {
            proof {
                let rest = s@.skip(i as int);
                assert(rest[0] == s@[i as int]);
                assert(words_of(rest) == words_of(rest.drop_first()));
                assert(rest.drop_first() =~= s@.skip(i + 1));
            }
            i = i + 1;
        } else {
            // read one word
            if out.len() > 0 {
                out.push(' ');
            }
            let start = i;
            let mut w: Vec<char> = Vec::new();
            while i < n && !is_ws_char(s[i])
                invariant
                    0 <= start <= i <= n == s@.len(),
                    start < n,
                    !is_ws(s@[start as int]),
                    forall|k: int| start <= k < i ==> !is_ws(s@[k]),
                    w@ == s@.subrange(start as int, i as int),
                decreases n - i,
            {
                w.push(s[i]);
                i = i + 1;
                proof {
                    assert(w@ =~= s@.subrange(start as int, i as int));
                }
            }
            proof {
                if emitted.len() == 0 {
                    assert(out@ =~= join_space(emitted) + Seq::<char>::empty() + w@.take(0));
                } else {
                    assert(out@ =~= join_space(emitted) + seq![' '] + w@.take(0));
                }
            }
            let mut wi: usize = 0;
            let wn = w.len();
            while wi < wn
                invariant
                    0 <= wi <= wn == w@.len(),
                    out@ == join_space(emitted) + (if emitted.len() == 0 {
                        Seq::<char>::empty()
                    } else {
                        seq![' ']
                    }) + w@.take(wi as int),
                decreases wn - wi,
            {
                out.push(w[wi]);
                wi = wi + 1;
                proof {
                    assert(w@.take(wi as int) =~= w@.take(wi - 1).push(w@[wi - 1]));
                }
            }
            proof {
                let rest = s@.skip(start as int);
                let k = (i - start) as int;
                assert(forall|j: int| 0 <= j < k ==> rest[j] == s@[start + j]);
                assert(forall|j: int| 0 <= j < k ==> !is_ws(rest[j]));
                if k < rest.len() {
                    assert(rest[k] == s@[i as int]);
                }
                lemma_words_take_word(rest, k);
                assert(rest.take(k) =~= s@.subrange(start as int, i as int));
                assert(rest.skip(k) =~= s@.skip(i as int));
                assert(words_of(s@.skip(start as int)) == seq![w@] + words_of(s@.skip(i as int)));
                lemma_join_snoc(emitted, w@);
                assert(emitted.push(w@) =~= emitted + seq![w@]);
                assert(w@.take(wn as int) =~= w@);
                assert(w@.len() >= 1);
                emitted = emitted.push(w@);
                assert(words_of(s@) == emitted + words_of(s@.skip(i as int)));
                assert(out@ == join_space(emitted));
                assert(out@.len() > 0);
            }
        }
    }
    proof {
        assert(s@.skip(n as int) =~= Seq::<char>::empty());
        assert(words_of(Seq::<char>::empty()) =~= Seq::<Seq<char>>::empty());
        assert(emitted + Seq::<Seq<char>>::empty() =~= emitted);
    }
    out
}

/// The ASCII upper-case image of a character: `a`–`z` mapped to `A`–`Z`.
pub open spec fn upper_char(c: char) -> char {
    match c {
        'a' => 'A', 'b' => 'B', 'c' => 'C', 'd' => 'D', 'e' => 'E', 'f' => 'F',
        'g' => 'G', 'h' => 'H', 'i' => 'I', 'j' => 'J', 'k' => 'K', 'l' => 'L',
        'm' => 'M', 'n' => 'N', 'o' => 'O', 'p' => 'P', 'q' => 'Q', 'r' => 'R',
        's' => 'S', 't' => 'T', 'u' => 'U', 'v' => 'V', 'w' => 'W', 'x' => 'X',
        'y' => 'Y', 'z' => 'Z', _ => c,
    }
}

/// The ASCII lower-case image of a character: `A`–`Z` mapped to `a`–`z`.
pub open spec fn lower_char(c: char) -> char {
    match c {
        'A' => 'a', 'B' => 'b', 'C' => 'c', 'D' => 'd', 'E' => 'e', 'F' => 'f',
        'G' => 'g', 'H' => 'h', 'I' => 'i', 'J' => 'j', 'K' => 'k', 'L' => 'l',
        'M' => 'm', 'N' => 'n', 'O' => 'o', 'P' => 'p', 'Q' => 'q', 'R' => 'r',
        'S' => 's', 'T' => 't', 'U' => 'u', 'V' => 'v', 'W' => 'w', 'X' => 'x',
        'Y' => 'y', 'Z' => 'z', _ => c,
    }
}

/// Executable mirror of `upper_char`.
pub fn upper_char_exec(c: char) -> (r: char)
    ensures
        r == upper_char(c),
{
    match c {
        'a' => 'A', 'b' => 'B', 'c' => 'C', 'd' => 'D', 'e' => 'E', 'f' => 'F',
        'g' => 'G', 'h' => 'H', 'i' => 'I', 'j' => 'J', 'k' => 'K', 'l' => 'L',
        'm' => 'M', 'n' => 'N', 'o' => 'O', 'p' => 'P', 'q' => 'Q', 'r' => 'R',
        's' => 'S', 't' => 'T', 'u' => 'U', 'v' => 'V', 'w' => 'W', 'x' => 'X',
        'y' => 'Y', 'z' => 'Z', _ => c,
    }
}

/// Executable mirror of `lower_char`.
pub fn lower_char_exec(c: char) -> (r: char)
    ensures
        r == lower_char(c),
{
    match c {
        'A' => 'a', 'B' => 'b', 'C' => 'c', 'D' => 'd', 'E' => 'e', 'F' => 'f',
        'G' => 'g', 'H' => 'h', 'I' => 'i', 'J' => 'j', 'K' => 'k', 'L' => 'l',
        'M' => 'm', 'N' => 'n', 'O' => 'o', 'P' => 'p', 'Q' => 'q', 'R' => 'r',
        'S' => 's', 'T' => 't', 'U' => 'u', 'V' => 'v', 'W' => 'w', 'X' => 'x',
        'Y' => 'y', 'Z' => 'z', _ => c,
    }
}

/// `s` mapped character-wise to ASCII upper case.
pub open spec fn upper_seq(s: Seq<char>) -> Seq<char> {
    s.map(|_i: int, c: char| upper_char(c))
}

/// `s` mapped character-wise to ASCII lower case.
pub open spec fn lower_seq(s: Seq<char>) -> Seq<char> {
    s.map(|_i: int, c: char| lower_char(c))
}

/// Maps `s` character-wise to ASCII upper case.
pub fn upper_chars(s: &Vec<char>) -> (r: Vec<char>)
    ensures
        r@ == upper_seq(s@),
{
    let mut r: Vec<char> = Vec::new();
    let mut i: usize = 0;
    let n = s.len();
    while i < n
        invariant
            0 <= i <= n == s@.len(),
            r@ == upper_seq(s@.take(i as int)),
        decreases n - i,
    {
        r.push(upper_char_exec(s[i]));
        i = i + 1;
        proof {
            assert(r@ =~= upper_seq(s@.take(i as int)));
        }
    }
    proof {
        assert(s@.take(n as int) =~= s@);
    }
    r
}

/// Maps `s` character-wise to ASCII lower case.
pub fn lower_chars(s: &Vec<char>) -> (r: Vec<char>)
    ensures
        r@ == lower_seq(s@),
{
    let mut r: Vec<char> = Vec::new();
    let mut i: usize = 0;
    let n = s.len();
    while i < n
        invariant
            0 <= i <= n == s@.len(),
            r@ == lower_seq(s@.take(i as int)),
        decreases n - i,
    {
        r.push(lower_char_exec(s[i]));
        i = i + 1;
        proof {
            assert(r@ =~= lower_seq(s@.take(i as int)));
        }
    }
    proof {
        assert(s@.take(n as int) =~= s@);
    }
    r
}

/// The character for a single decimal digit.
pub open spec fn digit_char(d: int) -> char {
    if d == 0 { '0' } else if d == 1 { '1' } else if d == 2 { '2' } else if d == 3 { '3' }
    else if d == 4 { '4' } else if d == 5 { '5' } else if d == 6 { '6' } else if d == 7 { '7' }
    else if d == 8 { '8' } else { '9' }
}

/// The decimal digits of `n`, most significant first.
pub open spec fn dec_digits(n: int) -> Seq<char>
    decreases n,
{
    if n < 10 {
        seq![digit_char(n)]
    } else {
        dec_digits(n / 10).push(digit_char(n % 10))
    }
}

/// Formats `n` in decimal, most significant digit first.
pub fn u64_to_chars(n: u64) -> (r: Vec<char>)
    ensures
        r@ == dec_digits(n as int),
        r@.len() >= 1,
{
    let mut rev: Vec<char> = Vec::new();
    let mut m: u64 = n;
    loop
        invariant_except_break
            dec_digits(n as int) == dec_digits(m as int) + rev_seq(rev@),
        ensures
            dec_digits(n as int) == rev_seq(rev@),
        decreases m,
    {
        let d = m % 10;
        let c = if d == 0 { '0' } else if d == 1 { '1' } else if d == 2 { '2' }
            else if d == 3 { '3' } else if d == 4 { '4' } else if d == 5 { '5' }
            else if d == 6 { '6' } else if d == 7 { '7' } else if d == 8 { '8' } else { '9' };
        proof {
            assert(c == digit_char((m % 10) as int));
            lemma_rev_push(rev@, c);
            if m >= 10 {
                assert(dec_digits(m as int) == dec_digits(m as int / 10).push(
                    digit_char(m as int % 10),
                ));
                assert(dec_digits((m / 10) as int) + rev_seq(rev@.push(c)) =~= dec_digits(
                    m as int,
                ) + rev_seq(rev@));
            } else {
                assert(dec_digits(m as int) == seq![digit_char(m as int)]);
                assert(rev_seq(rev@.push(c)) =~= seq![c] + rev_seq(rev@));
                assert(dec_digits(m as int) + rev_seq(rev@) =~= rev_seq(rev@.push(c)));
            }
        }
        rev.push(c);
        if m < 10 {
            break;
        }
        m = m / 10;
    }
    let mut r: Vec<char> = Vec::new();
    let mut i: usize = rev.len();
    while i > 0
        invariant
            0 <= i <= rev@.len(),
            r@ == rev_seq(rev@).take((rev@.len() - i) as int),
        decreases i,
    {
        i = i - 1;
        r.push(rev[i]);
        proof {
            let k = (rev@.len() - i) as int;
            assert(rev_seq(rev@)[k - 1] == rev@[i as int]);
            assert(r@ =~= rev_seq(rev@).take(k));
        }
    }
    proof {
        assert(rev_seq(rev@).take(rev@.len() as int) =~= rev_seq(rev@));
        lemma_dec_digits_len(n as int);
    }
    r
}

/// `s` reversed.
pub open spec fn rev_seq(s: Seq<char>) -> Seq<char> {
    Seq::new(s.len(), |i: int| s[s.len() - 1 - i])
}

proof fn lemma_rev_push(s: Seq<char>, c: char)
    ensures
        rev_seq(s.push(c)) =~= seq![c] + rev_seq(s),
{
}

proof fn lemma_dec_digits_len(n: int)
    ensures
        dec_digits(n).len() >= 1,
    decreases n,
{
    if n >= 10 {
        lemma_dec_digits_len(n / 10);
    }
}

/// The decimal digits of `n` left-padded with zeros to at least three places.
pub open spec fn dec_digits_pad3(n: int) -> Seq<char> {
    let d = dec_digits(n);
    if d.len() >= 3 {
        d
    } else if d.len() == 2 {
        seq!['0'] + d
    } else {
        seq!['0', '0'] + d
    }
}

/// Formats `n` in decimal, zero-padded to at least three places.
pub fn u64_to_chars_pad3(n: u64) -> (r: Vec<char>)
    ensures
        r@ == dec_digits_pad3(n as int),
{
    let d = u64_to_chars(n);
    let mut r: Vec<char> = Vec::new();
    if d.len() == 1 {
        r.push('0');
        r.push('0');
    } else if d.len() == 2 {
        r.push('0');
    }
    let mut i: usize = 0;
    let n2 = d.len();
    let ghost pre = r@;
    while i < n2
        invariant
            0 <= i <= n2 == d@.len(),
            r@ == pre + d@.take(i as int),
        decreases n2 - i,
    {
        r.push(d[i]);
        i = i + 1;
        proof {
            assert(r@ =~= pre + d@.take(i as int));
        }
    }
    proof {
        assert(d@.take(n2 as int) =~= d@);
        assert(r@ =~= dec_digits_pad3(n as int));
    }
    r
}

/// Whether `pat` occurs in `s` starting at position `i`.
pub open spec fn matches_at(s: Seq<char>, i: int, pat: Seq<char>) -> bool {
    0 <= i && i + pat.len() <= s.len() && s.subrange(i, i + pat.len()) == pat
}

/// Executable test for `matches_at`.
pub fn matches_at_exec(s: &Vec<char>, i: usize, pat: &Vec<char>) -> (r: bool)
    ensures
        r == matches_at(s@, i as int, pat@),
{
    let sn = s.len();
    if i > sn || pat.len() > sn - i {
        proof {
            assert(!(i + pat@.len() <= s@.len()));
        }
        return false;
    }
    let mut k: usize = 0;
    let n = pat.len();
    while k < n
        invariant
            0 <= k <= n == pat@.len(),
            i + n <= sn,
            sn == s@.len(),
            forall|j: int| 0 <= j < k ==> s@[i + j] == pat@[j],
        decreases n - k,
    {
        if s[i + k] != pat[k] {
            proof {
                assert(s@.subrange(i as int, i + pat@.len())[k as int] != pat@[k as int]);
            }
            return false;
        }
        k = k + 1;
    }
    proof {
        assert(s@.subrange(i as int, i + pat@.len()) =~= pat@);
    }
    true
}

/// Appends all of `src` to `dst`.
pub fn extend_chars(dst: &mut Vec<char>, src: &Vec<char>)
    ensures
        final(dst)@ == old(dst)@ + src@,
{
    let mut i: usize = 0;
    let n = src.len();
    while i < n
        invariant
            0 <= i <= n == src@.len(),
            dst@ == old(dst)@ + src@.take(i as int),
        decreases n - i,
    {
        dst.push(src[i]);
        i = i + 1;
        proof {
            assert(dst@ =~= old(dst)@ + src@.take(i as int));
        }
    }
    proof {
        assert(src@.take(n as int) =~= src@);
    }
}

} // verus!
