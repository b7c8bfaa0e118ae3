//! The data of a plot, and the range of a series of values.
use vstd::prelude::*;

pub mod histogram;
pub mod scatter;

verus! {

/// The samples a plot shows.
pub enum PlottableData {
    I64(Vec<i64>),
}

/// The smallest value of `s` (zero for an empty series).
pub open spec fn seq_min(s: Seq<i64>) -> i64
    decreases s.len(),
{
    if s.len() == 0 {
        0
    } else if s.len() == 1 {
        s[0]
    } else if s.last() < seq_min(s.drop_last()) {
        s.last()
    } else {
        seq_min(s.drop_last())
    }
}

/// The largest value of `s` (zero for an empty series).
pub open spec fn seq_max(s: Seq<i64>) -> i64
    decreases s.len(),
{
    if s.len() == 0 {
        0
    } else if s.len() == 1 {
        s[0]
    } else if s.last() > seq_max(s.drop_last()) {
        s.last()
    } else {
        seq_max(s.drop_last())
    }
}

/// The smallest and largest values of a series are values of it, and bound
/// all of its values.
pub proof fn lemma_seq_min_max(s: Seq<i64>)
    requires
        s.len() > 0,
    ensures
        exists|i: int| 0 <= i < s.len() && s[i] == seq_min(s),
        exists|i: int| 0 <= i < s.len() && s[i] == seq_max(s),
        forall|i: int| 0 <= i < s.len() ==> seq_min(s) <= #[trigger] s[i] <= seq_max(s),
    decreases s.len(),
{
    if s.len() > 1 {
        let t = s.drop_last();
        lemma_seq_min_max(t);
        let i = choose|i: int| 0 <= i < t.len() && t[i] == seq_min(t);
        let j = choose|j: int| 0 <= j < t.len() && t[j] == seq_max(t);
        assert(s[i] == t[i]);
        assert(s[j] == t[j]);
        assert(s[s.len() - 1] == s.last());
        assert forall|k: int| 0 <= k < s.len() implies seq_min(s) <= #[trigger] s[k] <= seq_max(s) by {
            if k < s.len() - 1 {
                assert(s[k] == t[k]);
            }
        }
    } else {
        assert(s[0] == seq_min(s));
    }
}

/// The smallest and largest values of a non-empty series.
pub fn resolve_axis_range(data: &[i64]) -> (r: (i64, i64))
    requires
        data@.len() > 0,
    ensures
        r.0 == seq_min(data@),
        r.1 == seq_max(data@),
{
    let mut lo = data[0];
    let mut hi = data[0];
    let mut i: usize = 1;
    while i < data.len()
        invariant
            1 <= i <= data@.len(),
            lo == seq_min(data@.take(i as int)),
            hi == seq_max(data@.take(i as int)),
        decreases data@.len() - i,
    {
        proof {
            assert(data@.take(i + 1).drop_last() =~= data@.take(i as int));
            assert(data@.take(i + 1).last() == data@[i as int]);
        }
        if data[i] < lo {
            lo = data[i];
        }
        if data[i] > hi {
            hi = data[i];
        }
        i = i + 1;
    }
    proof {
        assert(data@.take(data@.len() as int) =~= data@);
    }
    (lo, hi)
}

} // verus!
