//! Per-metric observed [min, max]. The range widens monotonically on each
//! ingested value; it narrows only by being rebuilt from nothing.

use vstd::prelude::*;

verus! {

/// The smallest and largest value seen so far for one metric.
#[derive(Debug, Clone, Copy, PartialEq, Eq, Structural)]
pub struct RunningRange {
    pub start: i64,
    pub end: i64,
}

/// One widening step: the first value starts a degenerate range, later
/// values stretch whichever bound they pass.
pub open spec fn spec_update_range(value: i64, range: Option<RunningRange>) -> RunningRange {
    match range {
        None => RunningRange { start: value, end: value },
        Some(r) => RunningRange {
            start: if value < r.start {
                value
            } else {
                r.start
            },
            end: if value > r.end {
                value
            } else {
                r.end
            },
        },
    }
}

/// The range observed after ingesting every value of `s`, in order.
pub open spec fn range_fold(s: Seq<i64>) -> Option<RunningRange>
    decreases s.len(),
{
    if s.len() == 0 {
        None
    } else {
        Some(spec_update_range(s.last(), range_fold(s.drop_last())))
    }
}

/// The smallest value of a non-empty sequence.
pub open spec fn seq_min(s: Seq<i64>) -> i64
    recommends
        s.len() > 0,
    decreases s.len(),
{
    if s.len() <= 1 {
        s[0]
    } else if s.last() < seq_min(s.drop_last()) {
        s.last()
    } else {
        seq_min(s.drop_last())
    }
}

/// The largest value of a non-empty sequence.
pub open spec fn seq_max(s: Seq<i64>) -> i64
    recommends
        s.len() > 0,
    decreases s.len(),
{
    if s.len() <= 1 {
        s[0]
    } else if s.last() > seq_max(s.drop_last()) {
        s.last()
    } else {
        seq_max(s.drop_last())
    }
}

/// Widens `range` to cover `value`; a first value starts the range as
/// [value, value].
pub fn update_min_max_range(value: i64, range: &Option<RunningRange>) -> (r: RunningRange)
    ensures
        r == spec_update_range(value, *range),
{
    match range {
        None => RunningRange { start: value, end: value },
        Some(r) => RunningRange {
            start: if value < r.start {
                value
            } else {
                r.start
            },
            end: if value > r.end {
                value
            } else {
                r.end
            },
        },
    }
}

/// The minimum of a non-empty sequence is one of its values and a lower
/// bound on all of them; dually for the maximum.
pub proof fn lemma_min_max_props(s: Seq<i64>)
    requires
        s.len() > 0,
    ensures
        s.contains(seq_min(s)),
        s.contains(seq_max(s)),
        forall|i: int| 0 <= i < s.len() ==> seq_min(s) <= #[trigger] s[i],
        forall|i: int| 0 <= i < s.len() ==> #[trigger] s[i] <= seq_max(s),
    decreases s.len(),
{
    if s.len() > 1 {
        lemma_min_max_props(s.drop_last());
        assert forall|i: int| 0 <= i < s.len() implies seq_min(s) <= #[trigger] s[i]
            && #[trigger] s[i] <= seq_max(s) by {
            if i < s.len() - 1 {
                assert(s.drop_last()[i] == s[i]);
            }
        }
        assert(s.drop_last().contains(seq_min(s.drop_last())));
        let j = choose|j: int|
            0 <= j < s.drop_last().len() && s.drop_last()[j] == seq_min(s.drop_last());
        assert(s[j] == seq_min(s.drop_last()));
        let k = choose|k: int|
            0 <= k < s.drop_last().len() && s.drop_last()[k] == seq_max(s.drop_last());
        assert(s[k] == seq_max(s.drop_last()));
    }
}

/// RunningRange law, first half: after ingesting the values of `s` the range
/// is exactly [min of s, max of s].
pub proof fn lemma_range_fold_min_max(s: Seq<i64>)
    requires
        s.len() > 0,
    ensures
        range_fold(s) == Some(RunningRange { start: seq_min(s), end: seq_max(s) }),
    decreases s.len(),
{
    if s.len() <= 1 {
        assert(range_fold(s.drop_last()) == None::<RunningRange>);
    } else {
        lemma_range_fold_min_max(s.drop_last());
    }
}

/// The minimum and maximum of a non-empty sequence depend only on which
/// values it holds, not on their order.
pub proof fn lemma_min_max_order_free(s1: Seq<i64>, s2: Seq<i64>)
    requires
        s1.len() > 0,
        s1.to_multiset() == s2.to_multiset(),
    ensures
        seq_min(s1) == seq_min(s2),
        seq_max(s1) == seq_max(s2),
{
    broadcast use vstd::seq_lib::group_to_multiset_ensures;

    assert(s2.len() == s2.to_multiset().len());
    lemma_min_max_props(s1);
    lemma_min_max_props(s2);
    assert(s1.to_multiset().count(seq_min(s1)) > 0);
    assert(s2.to_multiset().count(seq_min(s2)) > 0);
    assert(s1.to_multiset().count(seq_max(s1)) > 0);
    assert(s2.to_multiset().count(seq_max(s2)) > 0);
    assert(s2.contains(seq_min(s1)));
    assert(s1.contains(seq_min(s2)));
    assert(s2.contains(seq_max(s1)));
    assert(s1.contains(seq_max(s2)));
}

/// RunningRange law, second half: ingesting the same values in any other
/// order yields the same range.
pub proof fn lemma_range_fold_order_free(s1: Seq<i64>, s2: Seq<i64>)
    requires
        s1.to_multiset() == s2.to_multiset(),
    ensures
        range_fold(s1) == range_fold(s2),
{
    broadcast use vstd::seq_lib::group_to_multiset_ensures;

    if s1.len() == 0 {
        assert(s2.len() == s2.to_multiset().len());
        assert(s2.len() == 0);
    } else {
        assert(s2.len() == s2.to_multiset().len());
        lemma_min_max_order_free(s1, s2);
        lemma_range_fold_min_max(s1);
        lemma_range_fold_min_max(s2);
    }
}

} // verus!
