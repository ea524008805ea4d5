//! Aggregate up/down movement signal computed over a window of consecutive
//! scalar samples. A step from an earlier sample to a strictly smaller later
//! sample counts as "up" movement, a step to a strictly larger one as "down";
//! ties count for neither side.

use vstd::prelude::*;

verus! {

/// Direction of the aggregate movement over a window of samples.
#[derive(Debug, Clone, Copy, PartialEq, Eq, Structural)]
pub enum Trend {
    Up,
    Down,
    Flat,
}

/// Number of adjacent pairs (earlier, later) with earlier > later.
pub open spec fn up_steps(s: Seq<i64>) -> nat
    decreases s.len(),
{
    if s.len() < 2 {
        0
    } else {
        up_steps(s.drop_last()) + (if s[s.len() - 2] > s[s.len() - 1] {
            1nat
        } else {
            0nat
        })
    }
}

/// Number of adjacent pairs (earlier, later) with earlier < later.
pub open spec fn down_steps(s: Seq<i64>) -> nat
    decreases s.len(),
{
    if s.len() < 2 {
        0
    } else {
        down_steps(s.drop_last()) + (if s[s.len() - 2] < s[s.len() - 1] {
            1nat
        } else {
            0nat
        })
    }
}

/// The trend of a window: whichever movement count is strictly larger wins;
/// equal counts (including windows shorter than two samples) give no trend.
pub open spec fn spec_trend(s: Seq<i64>) -> Trend {
    if up_steps(s) > down_steps(s) {
        Trend::Up
    } else if down_steps(s) > up_steps(s) {
        Trend::Down
    } else {
        Trend::Flat
    }
}

proof fn lemma_steps_bounded(s: Seq<i64>)
    ensures
        up_steps(s) + down_steps(s) <= if s.len() < 2 {
            0int
        } else {
            s.len() - 1
        },
    decreases s.len(),
{
    if s.len() >= 2 {
        lemma_steps_bounded(s.drop_last());
    }
}

/// Walks consecutive pairs of `values` and compares how many moved up with
/// how many moved down.
pub fn get_trend(values: &[i64]) -> (t: Trend)
    ensures
        t == spec_trend(values@),
{
    let len = values.len();
    if len < 2 {
        proof {
            assert(up_steps(values@) == 0);
            assert(down_steps(values@) == 0);
        }
        return Trend::Flat;
    }

    let mut up_count: usize = 0;
    let mut down_count: usize = 0;
    let mut i: usize = 1;
    while i < len
        invariant
            1 <= i <= len,
            len == values@.len(),
            up_count == up_steps(values@.take(i as int)),
            down_count == down_steps(values@.take(i as int)),
        decreases len - i,
    {
        proof {
            lemma_steps_bounded(values@.take(i as int));
            assert(values@.take(i + 1).drop_last() =~= values@.take(i as int));
        }
        let a = values[i - 1];
        let b = values[i];
        if a > b {
            up_count = up_count + 1;
        } else if a < b {
            down_count = down_count + 1;
        }
        i = i + 1;
    }
    proof {
        assert(values@.take(len as int) =~= values@);
    }
    if up_count > down_count {
        Trend::Up
    } else if down_count > up_count {
        Trend::Down
    } else {
        Trend::Flat
    }
}

} // verus!
