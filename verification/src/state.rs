//! Persisted run state: the last recorded run per unit, used to skip a
//! unit that already ran within the freshness window.
//!
//! Loading and saving the state file happen outside the library; the map,
//! its lookup and update rules, and the freshness decision are all here.

use vstd::prelude::*;

verus! {

/// The freshness window: a unit that ran within the last 24 hours is
/// considered to have run today.
pub const DAY_MS: i64 = 86_400_000;

/// What the state file records for one unit.
#[derive(Debug, Clone, Copy, PartialEq, Eq, Structural)]
pub struct ReviewerState {
    /// Unix time of the last run, in milliseconds.
    pub last_run_ms: i64,
    pub findings_count: usize,
}

/// The whole persisted state: one record per unit id.
#[derive(Debug, Clone)]
pub struct State {
    pub reviewers: Vec<(String, ReviewerState)>,
}

/// The first record for `id`, if any.
pub open spec fn spec_lookup(entries: Seq<(String, ReviewerState)>, id: Seq<char>) -> Option<
    ReviewerState,
>
    decreases entries.len(),
{
    if entries.len() == 0 {
        None
    } else if entries[0].0@ == id {
        Some(entries[0].1)
    } else {
        spec_lookup(entries.drop_first(), id)
    }
}

/// Whether a run recorded at `last` counts as recent at `now`: strictly
/// within the freshness window.
pub open spec fn spec_recent(last: int, now: int) -> bool {
    now - last < DAY_MS as int
}

proof fn lemma_lookup_update(
    s: Seq<(String, ReviewerState)>,
    i: int,
    e: (String, ReviewerState),
    other: Seq<char>,
)
    requires
        0 <= i < s.len(),
        s[i].0@ == e.0@,
        other != e.0@,
    ensures
        spec_lookup(s.update(i, e), other) == spec_lookup(s, other),
    decreases s.len(),
{
    let s2 = s.update(i, e);
    if i == 0 {
        assert(s2[0] == e);
        assert(s[0].0@ != other);
        assert(s2.drop_first() =~= s.drop_first());
    } else {
        assert(s2[0] == s[0]);
        if s[0].0@ == other {
        } else {
            assert(s2.drop_first() =~= s.drop_first().update(i - 1, e));
            assert(s.drop_first()[i - 1] == s[i]);
            lemma_lookup_update(s.drop_first(), i - 1, e, other);
        }
    }
}

proof fn lemma_lookup_update_hit(s: Seq<(String, ReviewerState)>, i: int, e: (String, ReviewerState))
    requires
        0 <= i < s.len(),
        s[i].0@ == e.0@,
        forall|k: int| 0 <= k < i ==> s[k].0@ != e.0@,
    ensures
        spec_lookup(s.update(i, e), e.0@) == Some(e.1),
    decreases s.len(),
{
    let s2 = s.update(i, e);
    if i == 0 {
        assert(s2[0] == e);
    } else {
        assert(s2[0] == s[0]);
        assert(s[0].0@ != e.0@);
        assert(s2.drop_first() =~= s.drop_first().update(i - 1, e));
        assert(s.drop_first()[i - 1] == s[i]);
        assert forall|k: int| 0 <= k < i - 1 implies s.drop_first()[k].0@ != e.0@ by {
            assert(s.drop_first()[k] == s[k + 1]);
        };
        lemma_lookup_update_hit(s.drop_first(), i - 1, e);
    }
}

proof fn lemma_lookup_push(
    s: Seq<(String, ReviewerState)>,
    e: (String, ReviewerState),
    id: Seq<char>,
)
    ensures
        id == e.0@ && spec_lookup(s, id) is None ==> spec_lookup(s.push(e), id) == Some(e.1),
        id != e.0@ ==> spec_lookup(s.push(e), id) == spec_lookup(s, id),
    decreases s.len(),
{
    let s2 = s.push(e);
    if s.len() == 0 {
        assert(s2[0] == e);
        let emp = Seq::<(String, ReviewerState)>::empty();
        assert(spec_lookup(emp, id) is None);
        assert(s2.drop_first() =~= emp);
        assert(s2.len() == 1);
        if id == e.0@ {
            assert(spec_lookup(s2, id) == Some(e.1));
        } else {
            assert(s2[0].0@ != id);
            assert(spec_lookup(s2, id) == spec_lookup(s2.drop_first(), id));
        }
    } else {
        assert(s2[0] == s[0]);
        assert(s2.drop_first() =~= s.drop_first().push(e));
        lemma_lookup_push(s.drop_first(), e, id);
    }
}

/// Relies on `chrono::Utc::now`: the current Unix time in milliseconds.
/// Nothing is assumed of the value.
#[verifier::external_body]
fn now_ms() -> i64 {
    chrono::Utc::now().timestamp_millis()
}

impl State {
    /// The empty state: no unit has a recorded run.
    pub fn new() -> (r: State)
        ensures
            r.reviewers@.len() == 0,
    {
        State { reviewers: Vec::new() }
    }

    /// The record for `unit id`, if any.
    pub fn get(&self, reviewer_id: &str) -> (r: Option<ReviewerState>)
        ensures
            r == spec_lookup(self.reviewers@, reviewer_id@),
    {
        let n = self.reviewers.len();
        let mut i: usize = 0;
        proof {
            assert(self.reviewers@.skip(0) =~= self.reviewers@);
        }
        while i < n
            invariant
                0 <= i <= n == self.reviewers@.len(),
                spec_lookup(self.reviewers@, reviewer_id@) == spec_lookup(
                    self.reviewers@.skip(i as int),
                    reviewer_id@,
                ),
                forall|k: int| 0 <= k < i ==> self.reviewers@[k].0@ != reviewer_id@,
            decreases n - i,
        {
            if crate::strutil::str_eq(self.reviewers[i].0.as_str(), reviewer_id) {
                proof {
                    let rest = self.reviewers@.skip(i as int);
                    assert(rest[0] == self.reviewers@[i as int]);
                }
                return Some(self.reviewers[i].1);
            }
            i = i + 1;
            proof {
                let rest = self.reviewers@.skip(i - 1);
                assert(rest[0] == self.reviewers@[i - 1]);
                assert(rest.drop_first() =~= self.reviewers@.skip(i as int));
            }
        }
        proof {
            assert(self.reviewers@.skip(n as int) =~= Seq::<(String, ReviewerState)>::empty());
        }
        None
    }

    /// Whether `unit id` has a recorded run strictly within the
    /// freshness window before `now_ms`.
    pub fn ran_within(&self, reviewer_id: &str, at_ms: i64) -> (r: bool)
        ensures
            r == match spec_lookup(self.reviewers@, reviewer_id@) {
                Some(st) => spec_recent(st.last_run_ms as int, at_ms as int),
                None => false,
            },
    {
        match self.get(reviewer_id) {
            Some(st) => {
                let diff: i128 = at_ms as i128 - st.last_run_ms as i128;
                diff < DAY_MS as i128
            },
            None => false,
        }
    }

    /// Whether `unit id` already ran today: its recorded run, if any,
    /// lies within the freshness window before the clock's current time.
    pub fn ran_today(&self, reviewer_id: &str) -> (r: bool)
        ensures
            spec_lookup(self.reviewers@, reviewer_id@) is None ==> r == false,
    {
        let now = now_ms();
        self.ran_within(reviewer_id, now)
    }

    /// Records a run of `unit id` at time `now_ms`, overwriting any
    /// prior record unconditionally and leaving every other unit's
    /// record unchanged.
    pub fn record_run_at(&mut self, reviewer_id: &str, findings_count: usize, at_ms: i64)
        ensures
            spec_lookup(final(self).reviewers@, reviewer_id@) == Some(
                ReviewerState { last_run_ms: at_ms, findings_count },
            ),
            forall|other: Seq<char>|
                other != reviewer_id@ ==> #[trigger] spec_lookup(final(self).reviewers@, other)
                    == spec_lookup(old(self).reviewers@, other),
    {
        let n = self.reviewers.len();
        let mut i: usize = 0;
        while i < n
            invariant
                self.reviewers@ == old(self).reviewers@,
                0 <= i <= n == self.reviewers@.len(),
                forall|k: int| 0 <= k < i ==> self.reviewers@[k].0@ != reviewer_id@,
            decreases n - i,
        {
            if crate::strutil::str_eq(self.reviewers[i].0.as_str(), reviewer_id) {
                let entry = ReviewerState { last_run_ms: at_ms, findings_count };
                let id_string = self.reviewers[i].0.clone();
                let ghost olds = self.reviewers@;
                self.reviewers.set(i, (id_string, entry));
                proof {
                    let e = (id_string, entry);
                    assert(e.0@ == reviewer_id@);
                    assert(self.reviewers@ =~= olds.update(i as int, e));
                    lemma_lookup_update_hit(olds, i as int, e);
                    assert(spec_lookup(self.reviewers@, reviewer_id@) == Some(
                        ReviewerState { last_run_ms: at_ms, findings_count },
                    ));
                    assert forall|other: Seq<char>|
                        other != reviewer_id@ implies #[trigger] spec_lookup(
                        self.reviewers@,
                        other,
                    ) == spec_lookup(olds, other) by {
                        lemma_lookup_update(olds, i as int, e, other);
                    };
                }
                return ;
            }
            i = i + 1;
        }
        let entry = ReviewerState { last_run_ms: at_ms, findings_count };
        let ghost olds = self.reviewers@;
        let id_string = crate::strutil::string_of(&crate::strutil::chars_of(reviewer_id));
        self.reviewers.push((id_string, entry));
        proof {
            let e = (id_string, entry);
            assert(self.reviewers@ =~= olds.push(e));
            assert(spec_lookup(olds, reviewer_id@) is None) by {
                lemma_lookup_none(olds, reviewer_id@);
            }
            lemma_lookup_push(olds, e, reviewer_id@);
            assert forall|other: Seq<char>|
                other != reviewer_id@ implies #[trigger] spec_lookup(self.reviewers@, other)
                    == spec_lookup(olds, other) by {
                lemma_lookup_push(olds, e, other);
            };
        }
    }

    /// Records a run of `unit id` now, with this findings count; any
    /// prior record is overwritten and other units are untouched.
    pub fn record_run(&mut self, reviewer_id: &str, findings_count: usize)
        ensures
            match spec_lookup(final(self).reviewers@, reviewer_id@) {
                Some(st) => st.findings_count == findings_count,
                None => false,
            },
            forall|other: Seq<char>|
                other != reviewer_id@ ==> #[trigger] spec_lookup(final(self).reviewers@, other)
                    == spec_lookup(old(self).reviewers@, other),
    {
        let now = now_ms();
        self.record_run_at(reviewer_id, findings_count, now);
    }
}

proof fn lemma_lookup_none(s: Seq<(String, ReviewerState)>, id: Seq<char>)
    requires
        forall|k: int| 0 <= k < s.len() ==> s[k].0@ != id,
    ensures
        spec_lookup(s, id) is None,
    decreases s.len(),
{
    if s.len() > 0 {
        assert forall|k: int| 0 <= k < s.drop_first().len() implies s.drop_first()[k].0@ != id by {
            assert(s.drop_first()[k] == s[k + 1]);
        };
        lemma_lookup_none(s.drop_first(), id);
    }
}

} // verus!
