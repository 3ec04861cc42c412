//! The finding record and its content fingerprint.
//!
//! A finding's fingerprint is the first twelve hex characters of the SHA-256
//! digest of `unit id|file|line|type|normalized_snippet`, where the
//! snippet is normalized by collapsing white-space runs to single spaces.
//! It is the sole deduplication key of a finding across runs.

use vstd::prelude::*;
use sha2::Digest;
use crate::config::Priority;
use crate::text::{normalize_ws, dec_digits, normalize_ws_chars, u64_to_chars, extend_chars};
use crate::strutil::{string_chars, chars_of, string_of};
use vstd::utf8::encode_utf8;

verus! {

/// One analysis finding, immutable once parsed.
#[derive(Debug, Clone)]
pub struct Finding {
    pub id: String,
    pub finding_type: String,
    pub title: String,
    pub priority: Priority,
    pub file: String,
    /// 0 means no specific line.
    pub line: u32,
    pub snippet: Option<String>,
    pub description: String,
    pub remediation: String,
    pub acceptance_criteria: Vec<String>,
    pub references: Vec<String>,
}

/// The snippet's characters, or empty if the finding has none.
pub open spec fn snippet_seq(f: &Finding) -> Seq<char> {
    match f.snippet {
        Some(s) => s@,
        None => Seq::empty(),
    }
}

/// The SHA-256 digest of a byte sequence, as the outside hash crate
/// computes it.
pub uninterp spec fn sha256_of(data: Seq<u8>) -> Seq<u8>;

/// Relies on `sha2::Sha256::digest`: the 32-byte SHA-256 digest of the
/// input bytes, a function of the input alone.
#[verifier::external_body]
fn sha256_digest(data: &[u8]) -> (r: Vec<u8>)
    ensures
        r@ == sha256_of(data@),
        r@.len() == 32,
{
    sha2::Sha256::digest(data).to_vec()
}

/// The lower-case hex digit for a value below 16.
pub open spec fn hex_digit(d: int) -> char {
    if d == 0 { '0' } else if d == 1 { '1' } else if d == 2 { '2' } else if d == 3 { '3' }
    else if d == 4 { '4' } else if d == 5 { '5' } else if d == 6 { '6' } else if d == 7 { '7' }
    else if d == 8 { '8' } else if d == 9 { '9' } else if d == 10 { 'a' } else if d == 11 { 'b' }
    else if d == 12 { 'c' } else if d == 13 { 'd' } else if d == 14 { 'e' } else { 'f' }
}

/// The lower-case hex rendering of a byte sequence, two digits per byte.
pub open spec fn hex_of(bytes: Seq<u8>) -> Seq<char> {
    Seq::new(
        2 * bytes.len(),
        |i: int|
            if i % 2 == 0 {
                hex_digit(bytes[i / 2] as int / 16)
            } else {
                hex_digit(bytes[i / 2] as int % 16)
            },
    )
}

/// Renders bytes in lower-case hex, two digits per byte.
pub fn hex_chars(bytes: &Vec<u8>) -> (r: Vec<char>)
    ensures
        r@ == hex_of(bytes@),
{
    let n = bytes.len();
    let mut r: Vec<char> = Vec::new();
    let mut i: usize = 0;
    while i < n
        invariant
            0 <= i <= n == bytes@.len(),
            r@ == hex_of(bytes@.take(i as int)),
        decreases n - i,
    {
        let b = bytes[i];
        let hi = b / 16;
        let lo = b % 16;
        let chi = hex_digit_exec(hi);
        let clo = hex_digit_exec(lo);
        r.push(chi);
        r.push(clo);
        i = i + 1;
        proof {
            assert(r@ =~= hex_of(bytes@.take(i as int)));
        }
    }
    proof {
        assert(bytes@.take(n as int) =~= bytes@);
    }
    r
}

/// The lower-case hex digit of a value below 16.
fn hex_digit_exec(d: u8) -> (r: char)
    requires
        d < 16,
    ensures
        r == hex_digit(d as int),
{
    if d == 0 { '0' } else if d == 1 { '1' } else if d == 2 { '2' } else if d == 3 { '3' }
    else if d == 4 { '4' } else if d == 5 { '5' } else if d == 6 { '6' } else if d == 7 { '7' }
    else if d == 8 { '8' } else if d == 9 { '9' } else if d == 10 { 'a' } else if d == 11 { 'b' }
    else if d == 12 { 'c' } else if d == 13 { 'd' } else if d == 14 { 'e' } else { 'f' }
}

/// The hash input `unit|file|line|type|normalized_snippet`.
pub open spec fn fingerprint_input(
    reviewer_id: Seq<char>,
    file: Seq<char>,
    line: int,
    finding_type: Seq<char>,
    snippet_norm: Seq<char>,
) -> Seq<char> {
    reviewer_id + seq!['|'] + file + seq!['|'] + dec_digits(line) + seq!['|'] + finding_type
        + seq!['|'] + snippet_norm
}

/// The fingerprint of a finding for a unit: the first twelve hex
/// characters of the SHA-256 digest of the hash input's UTF-8 bytes.
pub open spec fn spec_fingerprint(f: &Finding, reviewer_id: Seq<char>) -> Seq<char> {
    hex_of(
        sha256_of(
            encode_utf8(
                fingerprint_input(
                    reviewer_id,
                    f.file@,
                    f.line as int,
                    f.finding_type@,
                    normalize_ws(snippet_seq(f)),
                ),
            ),
        ),
    ).take(12)
}

impl Finding {
    /// The snippet with white-space runs collapsed to single spaces, so that
    /// formatting differences between runs do not change the fingerprint.
    pub fn normalize_snippet(&self) -> (r: String)
        ensures
            r@ == normalize_ws(snippet_seq(self)),
    {
        let chars: Vec<char> = match &self.snippet {
            Some(s) => string_chars(s),
            None => Vec::new(),
        };
        let normalized = normalize_ws_chars(&chars);
        string_of(&normalized)
    }

    /// The deterministic deduplication fingerprint of this finding under the
    /// given unit: twelve lower-case hex characters.
    pub fn fingerprint(&self, reviewer_id: &str) -> (r: String)
        ensures
            r@ == spec_fingerprint(self, reviewer_id@),
            r@.len() == 12,
    {
        let mut input: Vec<char> = chars_of(reviewer_id);
        input.push('|');
        let file_chars = string_chars(&self.file);
        extend_chars(&mut input, &file_chars);
        input.push('|');
        let line_chars = u64_to_chars(self.line as u64);
        extend_chars(&mut input, &line_chars);
        input.push('|');
        let type_chars = string_chars(&self.finding_type);
        extend_chars(&mut input, &type_chars);
        input.push('|');
        let snippet_chars: Vec<char> = match &self.snippet {
            Some(s) => string_chars(s),
            None => Vec::new(),
        };
        let normalized = normalize_ws_chars(&snippet_chars);
        extend_chars(&mut input, &normalized);
        proof {
            assert(input@ =~= fingerprint_input(
                reviewer_id@,
                self.file@,
                self.line as int,
                self.finding_type@,
                normalize_ws(snippet_seq(self)),
            ));
        }
        let input_str = string_of(&input);
        let digest = sha256_digest(input_str.as_str().as_bytes());
        let hex = hex_chars(&digest);
        let mut out: Vec<char> = Vec::new();
        let mut i: usize = 0;
        while i < 12
            invariant
                0 <= i <= 12,
                hex@.len() == 64,
                out@ == hex@.take(i as int),
            decreases 12 - i,
        {
            out.push(hex[i]);
            i = i + 1;
            proof {
                assert(out@ =~= hex@.take(i as int));
            }
        }
        string_of(&out)
    }
}

/// The fingerprint depends on the snippet only through its normalized form:
/// two findings that agree on file, line and type and whose snippets
/// normalize to the same text have the same fingerprint for every unit.
pub proof fn lemma_fingerprint_whitespace_invariant(a: &Finding, b: &Finding, reviewer_id: Seq<char>)
    requires
        a.file@ == b.file@,
        a.line == b.line,
        a.finding_type@ == b.finding_type@,
        normalize_ws(snippet_seq(a)) == normalize_ws(snippet_seq(b)),
    ensures
        spec_fingerprint(a, reviewer_id) == spec_fingerprint(b, reviewer_id),
{
}

/// Whether two findings hold the same content, field by field.
pub open spec fn finding_eq(a: Finding, b: Finding) -> bool {
    &&& a.id@ == b.id@
    &&& a.finding_type@ == b.finding_type@
    &&& a.title@ == b.title@
    &&& a.priority == b.priority
    &&& a.file@ == b.file@
    &&& a.line == b.line
    &&& match (a.snippet, b.snippet) {
        (Some(x), Some(y)) => x@ == y@,
        (None, None) => true,
        _ => false,
    }
    &&& a.description@ == b.description@
    &&& a.remediation@ == b.remediation@
    &&& a.acceptance_criteria@ == b.acceptance_criteria@
    &&& a.references@ == b.references@
}

} // verus!
