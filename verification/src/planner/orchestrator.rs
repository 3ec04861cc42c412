//! The planning fan-out's data model and the perspective auto-selection
//! step's decisions: which perspectives a run takes, and how the
//! selection call's response is decoded.

use vstd::prelude::*;
use crate::errors::PlannerError;
use crate::jsonvalue::{parse_json_value, value_get, value_as_string};
use crate::jsonscan::{extract_fenced_or_brace, find_from, find_pat, lemma_find_from_bounds};
use crate::decode::{decode_string_list, field_string_or_empty};
use crate::strutil::{string_of, chars_of, string_chars};
use crate::text::{extend_chars, subrange_vec, words_of};
use crate::runner::{contains_str, contains_str_exec};
use crate::planner::types::Perspective;

verus! {

/// Options of one planning run.
#[derive(Debug, Clone)]
pub struct PlanOptions {
    /// The spec or feature to plan for.
    pub spec: String,
    /// Only run these perspectives, when given.
    pub perspective_filter: Option<Vec<String>>,
    /// Preview without executing.
    pub dry_run: bool,
}

/// What the auto-selection call chose.
#[derive(Debug, Clone)]
pub struct SelectionResult {
    pub selected: Vec<String>,
    pub reasoning: String,
}

/// Whether a planning run takes this perspective: it is enabled and
/// passes the id filter when one is given.
pub open spec fn perspective_selected(p: Perspective, filter: Option<Vec<String>>) -> bool {
    p.enabled && match filter {
        Some(f) => contains_str(f@, p.id@),
        None => true,
    }
}

/// The positions of the perspectives a run takes, in order.
pub fn selected_perspective_indices(perspectives: &Vec<Perspective>, filter: &Option<Vec<String>>)
    -> (r: Vec<usize>)
    ensures
        forall|k: int|
            0 <= k < r@.len() ==> (r@[k] as int) < perspectives@.len() && perspective_selected(
                perspectives@[r@[k] as int],
                *filter,
            ),
        forall|k1: int, k2: int| 0 <= k1 < k2 < r@.len() ==> r@[k1] < r@[k2],
        forall|j: int|
            0 <= j < perspectives@.len() && #[trigger] perspective_selected(
                perspectives@[j],
                *filter,
            ) ==> exists|k: int| 0 <= k < r@.len() && r@[k] as int == j,
{
    let n = perspectives.len();
    let mut out: Vec<usize> = Vec::new();
    let mut i: usize = 0;
    while i < n
        invariant
            0 <= i <= n == perspectives@.len(),
            forall|k: int|
                0 <= k < out@.len() ==> (out@[k] as int) < i && perspective_selected(
                    perspectives@[out@[k] as int],
                    *filter,
                ),
            forall|k1: int, k2: int| 0 <= k1 < k2 < out@.len() ==> out@[k1] < out@[k2],
            forall|j: int|
                0 <= j < i && #[trigger] perspective_selected(perspectives@[j], *filter)
                    ==> exists|k: int| 0 <= k < out@.len() && out@[k] as int == j,
        decreases n - i,
    {
        let p = &perspectives[i];
        let mut keep = p.enabled;
        if keep {
            match filter {
                Some(f) => {
                    keep = contains_str_exec(f, p.id.as_str());
                },
                None => {},
            }
        }
        if keep {
            let ghost old_out = out@;
            out.push(i);
            proof {
                assert(perspective_selected(perspectives@[i as int], *filter));
                assert forall|j: int|
                    0 <= j < i + 1 && #[trigger] perspective_selected(perspectives@[j], *filter)
                        implies exists|k: int| 0 <= k < out@.len() && out@[k] as int == j by {
                    if j < i {
                        let k0 = choose|k: int|
                            0 <= k < old_out.len() && old_out[k] as int == j;
                        assert(out@[k0] as int == j);
                    } else {
                        assert(out@[out@.len() - 1] as int == j);
                    }
                };
            }
        } else {
            proof {
                assert(!perspective_selected(perspectives@[i as int], *filter));
            }
        }
        i = i + 1;
    }
    out
}

/// How many nested `{"result": "..."}` envelopes the selection decoder
/// unwraps before giving up.
pub const MAX_ENVELOPE_DEPTH: usize = 16;

/// Locates the selection JSON in the response: envelope wrappers are
/// unwrapped (to a fixed depth, since nothing bounds what a provider
/// nests), a whole-text object holding `selected` is taken as is, and
/// otherwise the fenced-block and brace-span stages run.
fn extract_selection_json(raw: &str) -> (r: Option<String>) {
    let mut text: String = string_of(&chars_of(raw));
    let mut depth: usize = 0;
    while depth < MAX_ENVELOPE_DEPTH
        invariant
            depth <= MAX_ENVELOPE_DEPTH,
        decreases MAX_ENVELOPE_DEPTH - depth,
    {
        match parse_json_value(text.as_str()) {
            Some(value) => {
                match value_get(&value, "result") {
                    Some(result_val) => match value_as_string(result_val) {
                        Some(inner) => {
                            text = inner;
                            depth = depth + 1;
                            continue ;
                        },
                        None => {},
                    },
                    None => {},
                }
                match value_get(&value, "selected") {
                    Some(_) => {
                        return Some(text);
                    },
                    None => {},
                }
            },
            None => {},
        }
        break ;
    }
    extract_fenced_or_brace(text.as_str())
}

/// Decodes the auto-selection response: a JSON object with a required
/// `selected` list of perspective ids and optional `reasoning`.
pub fn parse_selection_response(raw: &str) -> (r: Result<SelectionResult, PlannerError>) {
    let json_str = match extract_selection_json(raw) {
        Some(j) => j,
        None => {
            return Err(
                PlannerError::ParseOutput(
                    string_of(&chars_of("Could not find JSON in selection response")),
                ),
            );
        },
    };
    let value = match parse_json_value(json_str.as_str()) {
        Some(v) => v,
        None => {
            return Err(
                PlannerError::ParseOutput(
                    string_of(&chars_of("Failed to parse selection JSON")),
                ),
            );
        },
    };
    let selected = match value_get(&value, "selected") {
        Some(inner) => match decode_string_list(inner) {
            Some(l) => l,
            None => {
                return Err(
                    PlannerError::ParseOutput(
                        string_of(&chars_of("Failed to parse selection JSON")),
                    ),
                );
            },
        },
        None => {
            return Err(
                PlannerError::ParseOutput(
                    string_of(&chars_of("Failed to parse selection JSON")),
                ),
            );
        },
    };
    let reasoning = match field_string_or_empty(&value, "reasoning") {
        Some(s) => s,
        None => String::new(),
    };
    Ok(SelectionResult { selected, reasoning })
}

/// The full prompt of one perspective call: the template, the spec to
/// plan for, and the perspective's name and focus.
pub open spec fn perspective_prompt_spec(
    template: Seq<char>,
    spec_text: Seq<char>,
    name: Seq<char>,
    focus: Seq<char>,
) -> Seq<char> {
    template + "\n\n## Feature/Task to Plan\n\n"@ + spec_text + "\n\n## Your Perspective: "@
        + name + "\n\nFocus: "@ + focus
}

/// Builds one perspective call's prompt, per `perspective_prompt_spec`.
pub fn build_perspective_prompt(template: &str, spec_text: &str, name: &str, focus: &str) -> (r:
    String)
    ensures
        r@ == perspective_prompt_spec(template@, spec_text@, name@, focus@),
{
    let mut out = chars_of(template);
    let p1 = chars_of("\n\n## Feature/Task to Plan\n\n");
    extend_chars(&mut out, &p1);
    let sp = chars_of(spec_text);
    extend_chars(&mut out, &sp);
    let p2 = chars_of("\n\n## Your Perspective: ");
    extend_chars(&mut out, &p2);
    let nm = chars_of(name);
    extend_chars(&mut out, &nm);
    let p3 = chars_of("\n\nFocus: ");
    extend_chars(&mut out, &p3);
    let fc = chars_of(focus);
    extend_chars(&mut out, &fc);
    proof {
        assert(out@ =~= perspective_prompt_spec(template@, spec_text@, name@, focus@));
    }
    string_of(&out)
}

/// One line of the selection prompt's perspective list.
pub open spec fn selection_entry_spec(p: Perspective) -> Seq<char> {
    "- **"@ + p.name@ + "** (id: `"@ + p.id@ + "`): "@ + p.focus@
}

/// The selection prompt's perspective list: one line per enabled
/// perspective, joined by newlines.
pub open spec fn selection_list_spec(ps: Seq<Perspective>) -> Seq<char>
    decreases ps.len(),
{
    if ps.len() == 0 {
        Seq::empty()
    } else {
        let rest = selection_list_spec(ps.drop_last());
        if !ps.last().enabled {
            rest
        } else if rest.len() == 0 {
            selection_entry_spec(ps.last())
        } else {
            rest + seq!['\n'] + selection_entry_spec(ps.last())
        }
    }
}

/// Builds the selection prompt's perspective list, per
/// `selection_list_spec`.
pub fn build_selection_list(perspectives: &Vec<Perspective>) -> (r: String)
    ensures
        r@ == selection_list_spec(perspectives@),
{
    let n = perspectives.len();
    let mut out: Vec<char> = Vec::new();
    let mut i: usize = 0;
    proof {
        assert(perspectives@.take(0) =~= Seq::<Perspective>::empty());
    }
    while i < n
        invariant
            0 <= i <= n == perspectives@.len(),
            out@ == selection_list_spec(perspectives@.take(i as int)),
        decreases n - i,
    {
        proof {
            assert(perspectives@.take(i + 1).drop_last() =~= perspectives@.take(i as int));
            assert(perspectives@.take(i + 1).last() == perspectives@[i as int]);
        }
        let p = &perspectives[i];
        if p.enabled {
            if out.len() > 0 {
                out.push('\n');
            }
            let p1 = chars_of("- **");
            extend_chars(&mut out, &p1);
            let nm = string_chars(&p.name);
            extend_chars(&mut out, &nm);
            let p2 = chars_of("** (id: `");
            extend_chars(&mut out, &p2);
            let idc = string_chars(&p.id);
            extend_chars(&mut out, &idc);
            let p3 = chars_of("`): ");
            extend_chars(&mut out, &p3);
            let fc = string_chars(&p.focus);
            extend_chars(&mut out, &fc);
            proof {
                assert(out@ =~= selection_list_spec(perspectives@.take(i + 1)));
            }
        }
        i = i + 1;
    }
    proof {
        assert(perspectives@.take(n as int) =~= perspectives@);
    }
    string_of(&out)
}

/// Whether the post-selection run keeps this perspective: it is enabled
/// and either the selection named its id or it is the designated
/// fallback, which is always forced in for generalist coverage.
pub open spec fn selection_keeps(
    p: Perspective,
    selected: Seq<String>,
    fallback: Seq<char>,
) -> bool {
    p.enabled && (contains_str(selected, p.id@) || p.id@ == fallback)
}

/// The positions of the perspectives the selection keeps, in order.
pub fn apply_selection(
    perspectives: &Vec<Perspective>,
    selected: &Vec<String>,
    fallback_id: &str,
) -> (r: Vec<usize>)
    ensures
        forall|k: int|
            0 <= k < r@.len() ==> (r@[k] as int) < perspectives@.len() && selection_keeps(
                perspectives@[r@[k] as int],
                selected@,
                fallback_id@,
            ),
        forall|k1: int, k2: int| 0 <= k1 < k2 < r@.len() ==> r@[k1] < r@[k2],
        forall|j: int|
            0 <= j < perspectives@.len() && #[trigger] selection_keeps(
                perspectives@[j],
                selected@,
                fallback_id@,
            ) ==> exists|k: int| 0 <= k < r@.len() && r@[k] as int == j,
{
    let n = perspectives.len();
    let mut out: Vec<usize> = Vec::new();
    let mut i: usize = 0;
    while i < n
        invariant
            0 <= i <= n == perspectives@.len(),
            forall|k: int|
                0 <= k < out@.len() ==> (out@[k] as int) < i && selection_keeps(
                    perspectives@[out@[k] as int],
                    selected@,
                    fallback_id@,
                ),
            forall|k1: int, k2: int| 0 <= k1 < k2 < out@.len() ==> out@[k1] < out@[k2],
            forall|j: int|
                0 <= j < i && #[trigger] selection_keeps(
                    perspectives@[j],
                    selected@,
                    fallback_id@,
                ) ==> exists|k: int| 0 <= k < out@.len() && out@[k] as int == j,
        decreases n - i,
    {
        let p = &perspectives[i];
        let keep = p.enabled && (contains_str_exec(selected, p.id.as_str()) || crate::strutil::str_eq(
            p.id.as_str(),
            fallback_id,
        ));
        if keep {
            let ghost old_out = out@;
            out.push(i);
            proof {
                assert(selection_keeps(perspectives@[i as int], selected@, fallback_id@));
                assert forall|j: int|
                    0 <= j < i + 1 && #[trigger] selection_keeps(
                        perspectives@[j],
                        selected@,
                        fallback_id@,
                    ) implies exists|k: int| 0 <= k < out@.len() && out@[k] as int == j by {
                    if j < i {
                        let k0 = choose|k: int|
                            0 <= k < old_out.len() && old_out[k] as int == j;
                        assert(out@[k0] as int == j);
                    } else {
                        assert(out@[out@.len() - 1] as int == j);
                    }
                };
            }
        } else {
            proof {
                assert(!selection_keeps(perspectives@[i as int], selected@, fallback_id@));
            }
        }
        i = i + 1;
    }
    out
}

/// Whether the outside character classifier counts a character as
/// alphanumeric.
pub uninterp spec fn alnum(c: char) -> bool;

/// Relies on `char::is_alphanumeric`: a fixed Unicode character class, a
/// function of the character alone.
#[verifier::external_body]
fn is_alnum(c: char) -> (r: bool)
    ensures
        r == alnum(c),
{
    c.is_alphanumeric()
}

/// What the outside case mapper lowers text to.
pub uninterp spec fn lower_of(s: Seq<char>) -> Seq<char>;

/// Relies on `str::to_lowercase`: the result depends on the characters
/// alone.
#[verifier::external_body]
fn lowercase(s: &str) -> (r: String)
    ensures
        r@ == lower_of(s@),
{
    s.to_lowercase()
}

/// Whether a character survives plan-name filtering: alphanumeric, a
/// space, or a dash.
pub open spec fn plan_name_keep(c: char) -> bool {
    alnum(c) || c == ' ' || c == '-'
}

/// `s` up to (not including) its first newline.
pub open spec fn first_line_spec(s: Seq<char>) -> Seq<char> {
    match find_from(s, 0, seq!['\n']) {
        Some(i) => s.take(i),
        None => s,
    }
}

/// `s` with everything but plan-name characters dropped.
pub open spec fn plan_name_filter(s: Seq<char>) -> Seq<char> {
    s.filter(|c: char| plan_name_keep(c))
}

/// The first five words of `ws`.
pub open spec fn first_five(ws: Seq<Seq<char>>) -> Seq<Seq<char>> {
    if ws.len() <= 5 {
        ws
    } else {
        ws.take(5)
    }
}

/// Words joined by dashes.
pub open spec fn join_dash(ws: Seq<Seq<char>>) -> Seq<char>
    decreases ws.len(),
{
    if ws.len() == 0 {
        Seq::empty()
    } else if ws.len() == 1 {
        ws[0]
    } else {
        join_dash(ws.drop_last()) + seq!['-'] + ws.last()
    }
}

/// The plan name before case mapping: the spec's first line, filtered to
/// plan-name characters, its first five words joined by dashes.
pub open spec fn plan_name_core(s: Seq<char>) -> Seq<char> {
    join_dash(first_five(words_of(plan_name_filter(first_line_spec(s)))))
}

/// Derives a short file-system-friendly plan name from the spec text:
/// the lower-cased `plan_name_core` of it.
pub fn sanitize_plan_name(spec_text: &str) -> (r: String)
    ensures
        r@ == lower_of(plan_name_core(spec_text@)),
{
    let chars = chars_of(spec_text);
    let mut nl: Vec<char> = Vec::new();
    nl.push('\n');
    proof {
        assert(nl@ =~= seq!['\n']);
    }
    let line = match find_pat(&chars, 0, &nl) {
        Some(i) => {
            proof {
                lemma_find_from_bounds(chars@, 0, nl@);
            }
            subrange_vec(&chars, 0, i)
        },
        None => subrange_vec(&chars, 0, chars.len()),
    };
    proof {
        assert(line@ =~= first_line_spec(spec_text@));
    }
    let n = line.len();
    let mut kept: Vec<char> = Vec::new();
    let mut i: usize = 0;
    proof {
        reveal_with_fuel(Seq::<char>::filter, 2);
        assert(line@.take(0) =~= Seq::<char>::empty());
        assert(plan_name_filter(line@.take(0)) =~= Seq::<char>::empty());
    }
    while i < n
        invariant
            0 <= i <= n == line@.len(),
            kept@ == plan_name_filter(line@.take(i as int)),
        decreases n - i,
    {
        proof {
            assert(line@.take(i + 1).drop_last() =~= line@.take(i as int));
            assert(line@.take(i + 1).last() == line@[i as int]);
        }
        let c = line[i];
        if is_alnum(c) || c == ' ' || c == '-' {
            kept.push(c);
        }
        i = i + 1;
        proof {
            reveal_with_fuel(Seq::<char>::filter, 2);
            assert(kept@ =~= plan_name_filter(line@.take(i as int)));
        }
    }
    proof {
        assert(line@.take(n as int) =~= line@);
    }
    let words = crate::tui::words_exec(&kept);
    let limit: usize = if words.len() <= 5 {
        words.len()
    } else {
        5
    };
    let ghost taken = first_five(words_of(kept@));
    proof {
        assert(taken =~= (if words@.len() <= 5 {
            words_of(kept@)
        } else {
            words_of(kept@).take(5)
        }));
    }
    let mut joined: Vec<char> = Vec::new();
    let mut k: usize = 0;
    proof {
        assert(taken.take(0) =~= Seq::<Seq<char>>::empty());
    }
    while k < limit
        invariant
            0 <= k <= limit <= words@.len(),
            limit as int <= taken.len(),
            words@.len() == words_of(kept@).len(),
            forall|m: int| 0 <= m < words@.len() ==> words@[m]@ == words_of(kept@)[m],
            forall|m: int| 0 <= m < limit ==> taken[m] == words_of(kept@)[m],
            joined@ == join_dash(taken.take(k as int)),
        decreases limit - k,
    {
        proof {
            assert(taken.take(k + 1).drop_last() =~= taken.take(k as int));
            assert(taken.take(k + 1).last() == taken[k as int]);
        }
        if k > 0 {
            joined.push('-');
        }
        extend_chars(&mut joined, &words[k]);
        k = k + 1;
        proof {
            assert(joined@ =~= join_dash(taken.take(k as int)));
        }
    }
    proof {
        assert(taken.take(limit as int) =~= taken);
        assert(joined@ == plan_name_core(spec_text@));
    }
    lowercase(string_of(&joined).as_str())
}

} // verus!
