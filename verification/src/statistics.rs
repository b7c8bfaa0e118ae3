//! Sorted series of samples and their median.
use vstd::prelude::*;
use vstd::relations::{sorted_by, total_ordering};
use vstd::seq_lib::lemma_sorted_unique;

verus! {

broadcast use vstd::seq_lib::group_to_multiset_ensures;

/// The ascending order of samples.
pub open spec fn ascending() -> spec_fn(i64, i64) -> bool {
    |a: i64, b: i64| a <= b
}

/// The samples of `s` in ascending order.
pub open spec fn sorted_values(s: Seq<i64>) -> Seq<i64> {
    s.sort_by(ascending())
}

/// The median of a non-empty series: the sample at half its length in
/// ascending order (the upper of the two middle samples of an even count).
pub open spec fn median_of(s: Seq<i64>) -> i64 {
    sorted_values(s)[(s.len() / 2) as int]
}

/// The ascending order is a total order.
pub proof fn lemma_ascending_total()
    ensures
        total_ordering(ascending()),
{
}

/// Sorting keeps the samples and their number, and orders them.
pub proof fn lemma_sorted_values(s: Seq<i64>)
    ensures
        sorted_values(s).len() == s.len(),
        sorted_values(s).to_multiset() == s.to_multiset(),
        sorted_by(sorted_values(s), ascending()),
{
    s.lemma_sort_by_ensures(ascending());
    s.to_multiset_ensures();
    sorted_values(s).to_multiset_ensures();
}

/// A series of samples in ascending order.
pub struct Sorted {
    values: Vec<i64>,
}

impl View for Sorted {
    type V = Seq<i64>;

    closed spec fn view(&self) -> Seq<i64> {
        self.values@
    }
}

impl Sorted {
    /// The samples of `unsorted`, sorted ascending.
    pub fn from_unsorted(unsorted: &Vec<i64>) -> (s: Sorted)
        ensures
            s@ == sorted_values(unsorted@),
    {
        let mut r: Vec<i64> = Vec::new();
        let mut i: usize = 0;
        while i < unsorted.len()
            invariant
                i <= unsorted@.len(),
                sorted_by(r@, ascending()),
                r@.to_multiset() == unsorted@.take(i as int).to_multiset(),
            decreases unsorted@.len() - i,
        {
            let x = unsorted[i];
            let mut p: usize = 0;
            while p < r.len() && r[p] <= x
                invariant
                    p <= r@.len(),
                    forall|j: int| 0 <= j < p ==> r@[j] <= x,
                decreases r@.len() - p,
            {
                p = p + 1;
            }
            let ghost r0 = r@;
            r.insert(p, x);
            proof {
                assert(forall|j: int| p <= j < r0.len() ==> x < #[trigger] r0[j]) by {
                    assert forall|j: int| p <= j < r0.len() implies x < #[trigger] r0[j] by {
                        assert(ascending()(r0[p as int], r0[j]) || j == p);
                    }
                }
                assert forall|a: int, b: int| 0 <= a < b < r@.len() implies #[trigger] ascending()(r@[a], r@[b]) by {
                    if b < p {
                        assert(ascending()(r0[a], r0[b]));
                    } else if b == p {
                    } else if a < p {
                        assert(r@[b] == r0[b - 1]);
                    } else if a == p {
                        assert(r@[b] == r0[b - 1]);
                    } else {
                        assert(ascending()(r0[a - 1], r0[b - 1]));
                    }
                }
                assert(unsorted@.take(i + 1) =~= unsorted@.take(i as int).push(x));
                unsorted@.take(i as int).to_multiset_ensures();
            }
            i = i + 1;
        }
        proof {
            assert(unsorted@.take(unsorted@.len() as int) =~= unsorted@);
            lemma_sorted_values(unsorted@);
            lemma_ascending_total();
            lemma_sorted_unique(r@, sorted_values(unsorted@), ascending());
        }
        Sorted { values: r }
    }

    /// The number of samples.
    pub fn len(&self) -> (n: usize)
        ensures
            n == self@.len(),
    {
        self.values.len()
    }

    /// The samples, in ascending order.
    pub fn values(&self) -> (v: &Vec<i64>)
        ensures
            v@ == self@,
    {
        &self.values
    }

    /// The sample at half the length, if there is any sample.
    pub fn median(&self) -> (m: Option<i64>)
        ensures
            self@.len() == 0 ==> m is None,
            self@.len() > 0 ==> m == Some(self@[(self@.len() / 2) as int]),
    {
        if self.values.len() == 0 {
            None
        } else {
            Some(self.values[self.values.len() / 2])
        }
    }
}

} // verus!
