//! Binning of samples for histograms: a readable bin width, an axis range
//! aligned to it, the number of bins, and the range of a series of values.
use vstd::prelude::*;
use vstd::arithmetic::power2::{lemma2_to64, lemma_pow2_strictly_increases, lemma_pow2_unfold, pow2};
use crate::dependency_graph::fits;

verus! {

/// Starting from `m`, the largest power-of-ten multiple `m * 10^k` of `m`
/// with `m * 10^k * b <= r`.
pub open spec fn decade_from(r: int, b: int, m: int) -> int
    decreases r - m * b,
    when b >= 1 && m >= 1 && m * b <= r
{
    if 10 * m * b <= r {
        proof {
            assert(10 * m * b > m * b) by (nonlinear_arith)
                requires
                    b >= 1,
                    m >= 1,
            ;
            assert(10 * m * b == (10 * m) * b) by (nonlinear_arith);
        }
        decade_from(r, b, 10 * m)
    } else {
        m
    }
}

/// A bin width for `r` units spread over `b` bins: the ratio `r / b` rounded
/// up to one, two or five times a power of ten (one where the ratio is
/// below one).
pub open spec fn nice_bin_width(r: int, b: int) -> int {
    if r < b {
        1
    } else {
        let m = decade_from(r, b, 1);
        if r <= m * b {
            m
        } else if r <= 2 * m * b {
            2 * m
        } else if r <= 5 * m * b {
            5 * m
        } else {
            10 * m
        }
    }
}

/// The power of ten that `decade_from` reaches is the largest one that fits.
pub proof fn lemma_decade_from(r: int, b: int, m: int)
    requires
        b >= 1,
        m >= 1,
        m * b <= r,
    ensures
        decade_from(r, b, m) >= m,
        decade_from(r, b, m) * b <= r,
        r < 10 * decade_from(r, b, m) * b,
    decreases r - m * b,
{
    if 10 * m * b <= r {
        assert(10 * m * b > m * b) by (nonlinear_arith)
            requires
                b >= 1,
                m >= 1,
        ;
        assert(10 * m * b == (10 * m) * b) by (nonlinear_arith);
        lemma_decade_from(r, b, 10 * m);
    }
}

/// The width covers the range: `b` bins of it hold `r` units.
pub proof fn lemma_nice_bin_width_covers(r: int, b: int)
    requires
        r >= 1,
        b >= 1,
    ensures
        nice_bin_width(r, b) >= 1,
        nice_bin_width(r, b) * b >= r,
{
    if r >= b {
        let m = decade_from(r, b, 1);
        lemma_decade_from(r, b, 1);
        assert(nice_bin_width(r, b) * b >= r) by (nonlinear_arith)
            requires
                m >= 1,
                b >= 1,
                r < 10 * m * b,
                nice_bin_width(r, b) == (if r <= m * b {
                    m
                } else if r <= 2 * m * b {
                    2 * m
                } else if r <= 5 * m * b {
                    5 * m
                } else {
                    10 * m
                }),
        ;
    }
}

/// Ten to the power `k`.
pub open spec fn pow10(k: nat) -> int
    decreases k,
{
    if k == 0 {
        1
    } else {
        10 * pow10((k - 1) as nat)
    }
}

/// A readable width: one, two or five times a power of ten.
pub open spec fn readable_width(w: int) -> bool {
    exists|k: nat| w == #[trigger] pow10(k) || w == 2 * pow10(k) || w == 5 * pow10(k)
}

proof fn lemma_pow10_grows(j: nat, k: nat)
    requires
        j <= k,
    ensures
        1 <= pow10(j) <= pow10(k),
    decreases k,
{
    if k > j {
        lemma_pow10_grows(j, (k - 1) as nat);
    } else if k > 0 {
        lemma_pow10_grows(0, (k - 1) as nat);
    }
}

proof fn lemma_decade_is_power(r: int, b: int, k: nat)
    requires
        b >= 1,
        pow10(k) * b <= r,
    ensures
        exists|k2: nat| decade_from(r, b, pow10(k)) == #[trigger] pow10(k2),
    decreases r - pow10(k) * b,
{
    lemma_pow10_grows(0, k);
    let m = pow10(k);
    if 10 * m * b <= r {
        assert(pow10(k + 1) == 10 * m);
        assert(10 * m * b > m * b) by (nonlinear_arith)
            requires
                b >= 1,
                m >= 1,
        ;
        assert(10 * m * b == (10 * m) * b) by (nonlinear_arith);
        lemma_decade_is_power(r, b, k + 1);
    } else {
        assert(decade_from(r, b, m) == pow10(k));
    }
}

/// The bin width is the least readable width (one, two or five times a
/// power of ten) of which `b` bins hold `r` units.
pub proof fn law_nice_bin_width_least(r: int, b: int)
    requires
        r >= 1,
        b >= 1,
    ensures
        readable_width(nice_bin_width(r, b)),
        nice_bin_width(r, b) * b >= r,
        forall|v: int| readable_width(v) && v * b >= r ==> nice_bin_width(r, b) <= v,
{
    lemma_nice_bin_width_covers(r, b);
    let w = nice_bin_width(r, b);
    if r < b {
        assert(w == pow10(0));
        assert forall|v: int| readable_width(v) && v * b >= r implies w <= v by {
            let j = choose|j: nat| v == #[trigger] pow10(j) || v == 2 * pow10(j) || v == 5 * pow10(j);
            let c: int = if v == pow10(j) {
                1
            } else if v == 2 * pow10(j) {
                2
            } else {
                5
            };
            lemma_pow10_grows(0, j);
        }
    } else {
        assert(pow10(0) == 1);
        lemma_decade_from(r, b, 1);
        lemma_decade_is_power(r, b, 0);
        let m = decade_from(r, b, 1);
        let k = choose|k2: nat| decade_from(r, b, pow10(0)) == #[trigger] pow10(k2);
        assert(m == pow10(k));
        assert(pow10(k + 1) == 10 * m);
        if r <= m * b {
            assert(w == pow10(k));
        } else if r <= 2 * m * b {
            assert(w == 2 * pow10(k));
        } else if r <= 5 * m * b {
            assert(w == 5 * pow10(k));
        } else {
            assert(w == pow10(k + 1));
        }
        assert(w <= 10 * m);
        assert forall|v: int| readable_width(v) && v * b >= r implies w <= v by {
            let j = choose|j: nat| v == #[trigger] pow10(j) || v == 2 * pow10(j) || v == 5 * pow10(j);
            let c: int = if v == pow10(j) {
                1
            } else if v == 2 * pow10(j) {
                2
            } else {
                5
            };
            let pj = pow10(j);
            lemma_pow10_grows(0, j);
            assert(v >= m) by (nonlinear_arith)
                requires
                    v * b >= r,
                    r >= m * b,
                    b >= 1,
            ;
            if j < k {
                lemma_pow10_grows(j + 1, k);
                assert(pow10(j + 1) == 10 * pj);
                assert(false) by (nonlinear_arith)
                    requires
                        v == c * pj,
                        c <= 5,
                        pj >= 1,
                        10 * pj <= m,
                        v >= m,
                ;
            } else if j == k {
                assert(v == c * m);
                if c == 1 {
                    assert(r <= m * b);
                } else if c == 2 {
                    assert(r <= 2 * m * b) by (nonlinear_arith)
                        requires
                            v == 2 * m,
                            v * b >= r,
                    ;
                } else {
                    assert(r <= 5 * m * b) by (nonlinear_arith)
                        requires
                            v == 5 * m,
                            v * b >= r,
                    ;
                }
            } else {
                lemma_pow10_grows(k + 1, j);
                assert(v >= pj) by (nonlinear_arith)
                    requires
                        v == c * pj,
                        c >= 1,
                        pj >= 1,
                ;
            }
        }
    }
}

/// The bin width for `raw` units over `bins` bins.
fn nice_width(raw: u64, bins: u64) -> (w: i64)
    requires
        raw >= 1,
        bins >= 1,
        4 * nice_bin_width(raw as int, bins as int) <= i64::MAX,
    ensures
        w == nice_bin_width(raw as int, bins as int),
{
    nice_width_wide(raw, bins) as i64
}

/// The bin width for `raw` units over `bins` bins, which is at most ten
/// times `raw`.
fn nice_width_wide(raw: u64, bins: u64) -> (w: u128)
    requires
        raw >= 1,
        bins >= 1,
    ensures
        w == nice_bin_width(raw as int, bins as int),
        w <= 10 * raw,
{
    if raw < bins {
        return 1;
    }
    let r: u128 = raw as u128;
    let b: u128 = bins as u128;
    let mut m: u128 = 1;
    let mut mb: u128 = b;
    while 10 * mb <= r
        invariant
            1 <= m,
            1 <= b <= u64::MAX,
            r <= u64::MAX,
            mb == m * b,
            mb <= r,
            decade_from(r as int, b as int, m as int) == decade_from(r as int, b as int, 1),
        decreases r - mb,
    {
        proof {
            assert((10 * m) * b == 10 * (m * b)) by (nonlinear_arith);
            assert(m * b >= 1) by (nonlinear_arith)
                requires
                    m >= 1,
                    b >= 1,
            ;
            assert(m <= m * b) by (nonlinear_arith)
                requires
                    b >= 1,
                    m >= 1,
            ;
        }
        m = 10 * m;
        mb = 10 * mb;
    }
    proof {
        lemma_decade_from(r as int, b as int, 1);
        assert(m <= m * b) by (nonlinear_arith)
            requires
                b >= 1,
                m >= 1,
        ;
        let (mi, bi) = (m as int, b as int);
        assert(10 * mi * bi == 10 * (mi * bi) && 2 * mi * bi == 2 * (mi * bi) && 5 * mi * bi == 5 * (
        mi * bi)) by (nonlinear_arith);
        assert(decade_from(r as int, bi, mi) == mi);
    }
    if r <= mb {
        m
    } else if r <= 2 * mb {
        2 * m
    } else if r <= 5 * mb {
        5 * m
    } else {
        10 * m
    }
}

/// The largest multiple of `w` at or below `x`.
pub open spec fn floor_multiple(x: int, w: int) -> int {
    (x / w) * w
}

/// The smallest multiple of `w` at or above `x`.
pub open spec fn ceil_multiple(x: int, w: int) -> int {
    if x % w == 0 {
        x
    } else {
        (x / w + 1) * w
    }
}

/// The multiples of `w` around `[min, max]`, widened until the range spans
/// a multiple of four bins: the widening is split evenly on both sides, but
/// where it would start below zero the range starts at zero and the whole
/// widening goes to its end.
pub open spec fn aligned_range(min: int, max: int, w: int) -> (int, int) {
    let start = floor_multiple(min, w);
    let end = ceil_multiple(max, w);
    let r = (end - start) % (4 * w);
    if r == 0 {
        (start, end)
    } else {
        let exp = 4 * w - r;
        let l = exp / 2;
        if start - l < 0 {
            (0, end + (exp - start))
        } else {
            (start - l, end + (exp - l))
        }
    }
}

/// The bin width and the axis range of a histogram of values in
/// `[min, max]` over `bins` bins. Where all values are equal, the width is
/// one and the range extends four units on each side, not below zero.
pub open spec fn spec_alignment(min: int, max: int, bins: int) -> (int, (int, int)) {
    if max - min == 0 {
        (1, (if min - 4 < 0 { 0 } else { min - 4 }, max + 4))
    } else {
        let w = nice_bin_width(max - min, bins);
        (w, aligned_range(min, max, w))
    }
}

/// The alignment of `[min, max]` over `bins` bins is computable in `i64`:
/// there is at least one bin, `min <= max`, and no intermediate value
/// overflows.
pub open spec fn alignment_fits(min: int, max: int, bins: int) -> bool {
    &&& 1 <= bins <= u64::MAX
    &&& min <= max
    &&& fits(max - min)
    &&& if max - min == 0 {
        fits(min - 4) && fits(max + 4)
    } else {
        let w = nice_bin_width(max - min, bins);
        let start = floor_multiple(min, w);
        let end = ceil_multiple(max, w);
        let r = (end - start) % (4 * w);
        let exp = 4 * w - r;
        let l = exp / 2;
        &&& fits(4 * w)
        &&& fits(start)
        &&& fits(end)
        &&& fits(end - start)
        &&& r != 0 ==> fits(start - l) && if start - l < 0 {
            fits(exp - start) && fits(end + (exp - start))
        } else {
            fits(end + (exp - l))
        }
    }
}

/// The aligned axis ends at or after `max`, starts between zero and `min`
/// for non-negative data, and, where the values differ, spans a whole number
/// of four-bin groups of a width that fits the values into the bins.
pub proof fn lemma_alignment(min: int, max: int, bins: int)
    requires
        alignment_fits(min, max, bins),
    ensures
        spec_alignment(min, max, bins).0 >= 1,
        spec_alignment(min, max, bins).1.1 >= max,
        min >= 0 ==> 0 <= spec_alignment(min, max, bins).1.0 <= min,
        max != min ==> (spec_alignment(min, max, bins).1.1 - spec_alignment(min, max, bins).1.0)
            % (4 * spec_alignment(min, max, bins).0) == 0,
        max != min ==> spec_alignment(min, max, bins).0 * bins >= max - min,
{
    if max != min {
        let w = nice_bin_width(max - min, bins);
        lemma_nice_bin_width_covers(max - min, bins);
        let start = floor_multiple(min, w);
        let end = ceil_multiple(max, w);
        let t = end - start;
        let r = t % (4 * w);
        assert(start <= min && (min >= 0 ==> start >= 0)) by (nonlinear_arith)
            requires
                w >= 1,
                start == (min / w) * w,
        ;
        assert(end >= max) by (nonlinear_arith)
            requires
                w >= 1,
                end == (if max % w == 0 {
                    max
                } else {
                    (max / w + 1) * w
                }),
        ;
        assert(t >= 0);
        assert(0 <= r < 4 * w);
        if r != 0 {
            let exp = 4 * w - r;
            assert((t + exp) % (4 * w) == 0) by (nonlinear_arith)
                requires
                    w >= 1,
                    r == t % (4 * w),
                    exp == 4 * w - r,
            {
                vstd::arithmetic::div_mod::lemma_fundamental_div_mod(t, 4 * w);
                vstd::arithmetic::div_mod::lemma_mod_multiples_basic(t / (4 * w) + 1, 4 * w);
                assert(t + exp == (t / (4 * w) + 1) * (4 * w)) by (nonlinear_arith)
                    requires
                        t == (4 * w) * (t / (4 * w)) + t % (4 * w),
                        exp == 4 * w - r,
                        r == t % (4 * w),
                ;
            }
        }
    }
}

/// Where the values differ, the histogram's bin width is the least readable
/// width (one, two or five times a power of ten) whose bins cover the range
/// of the values.
pub proof fn law_alignment_width_least(min: int, max: int, bins: int)
    requires
        min < max,
        bins >= 1,
    ensures
        readable_width(spec_alignment(min, max, bins).0),
        spec_alignment(min, max, bins).0 * bins >= max - min,
        forall|v: int|
            readable_width(v) && v * bins >= max - min ==> spec_alignment(min, max, bins).0 <= v,
{
    law_nice_bin_width_least(max - min, bins);
}

/// Selects a bin width and an `x` axis range so that the ticks fall on
/// round numbers.
pub fn histogram_x_axis_alignment(min: i64, max: i64, data_bins: u64) -> (res: (i64, (i64, i64)))
    requires
        alignment_fits(min as int, max as int, data_bins as int),
    ensures
        res.0 == spec_alignment(min as int, max as int, data_bins as int).0,
        res.1.0 == spec_alignment(min as int, max as int, data_bins as int).1.0,
        res.1.1 == spec_alignment(min as int, max as int, data_bins as int).1.1,
{
    let raw_range = (max - min) as u64;
    if raw_range == 0 {
        let start = if min - 4 < 0 {
            0
        } else {
            min - 4
        };
        (1, (start, max + 4))
    } else {
        let bin_width = nice_width(raw_range, data_bins);
        proof {
            lemma_nice_bin_width_covers(raw_range as int, data_bins as int);
            let (mn, w) = (min as int, bin_width as int);
            if mn < 0 {
                assert(mn <= mn / w < 0) by (nonlinear_arith)
                    requires
                        mn < 0,
                        w >= 1,
                ;
            } else {
                assert(0 <= mn / w <= mn) by (nonlinear_arith)
                    requires
                        mn >= 0,
                        w >= 1,
                ;
            }
        }
        let q_min = min.checked_div_euclid(bin_width).unwrap();
        let mut x_start = q_min * bin_width;
        let mut x_end = if max.checked_rem_euclid(bin_width).unwrap() == 0 {
            max
        } else {
            proof {
                let (mx, w) = (max as int, bin_width as int);
                assert(i64::MIN <= mx / w && mx / w + 1 <= i64::MAX) by (nonlinear_arith)
                    requires
                        w >= 1,
                        i64::MIN <= mx <= i64::MAX,
                        i64::MIN <= (mx / w + 1) * w <= i64::MAX,
                ;
            }
            let q_max = max.checked_div_euclid(bin_width).unwrap();
            (q_max + 1) * bin_width
        };
        let t_range = x_end - x_start;
        let required = 4 * bin_width;
        let r = t_range.checked_rem_euclid(required).unwrap();
        if r != 0 {
            let exp = required - r;
            let l_e = exp.checked_div_euclid(2).unwrap();
            let r_e = exp - l_e;
            if x_start - l_e < 0 {
                let c = x_start;
                x_start = 0;
                x_end += exp - c;
            } else {
                x_start -= l_e;
                x_end += r_e;
            }
        }
        (bin_width, (x_start, x_end))
    }
}

/// Whether `alignment_fits` holds: the alignment of `[min, max]` over
/// `bins` bins is computable without overflow.
pub fn alignment_in_range(min: i64, max: i64, bins: u64) -> (r: bool)
    ensures
        r == alignment_fits(min as int, max as int, bins as int),
{
    let lo: i128 = i64::MIN as i128;
    let hi: i128 = i64::MAX as i128;
    if bins == 0 || min > max {
        return false;
    }
    let spread: i128 = max as i128 - min as i128;
    if spread > hi {
        return false;
    }
    if spread == 0 {
        let a = min as i128 - 4;
        let b = max as i128 + 4;
        return lo <= a && b <= hi;
    }
    let w = nice_width_wide(spread as u64, bins) as i128;
    proof {
        lemma_nice_bin_width_covers(spread as int, bins as int);
    }
    if 4 * w > hi {
        return false;
    }
    let mn = min as i128;
    let mx = max as i128;
    proof {
        assert(mn - w <= (mn / w) * w <= mn) by (nonlinear_arith)
            requires
                w >= 1,
        ;
        assert(mx <= (mx / w + 1) * w <= mx + w) by (nonlinear_arith)
            requires
                w >= 1,
        ;
        assert(i64::MIN <= mn / w <= i64::MAX && i64::MIN <= mx / w <= i64::MAX) by (nonlinear_arith)
            requires
                w >= 1,
                i64::MIN <= mn <= i64::MAX,
                i64::MIN <= mx <= i64::MAX,
        ;
    }
    let start = mn.checked_div_euclid(w).unwrap() * w;
    let end = if mx.checked_rem_euclid(w).unwrap() == 0 {
        mx
    } else {
        (mx.checked_div_euclid(w).unwrap() + 1) * w
    };
    if !(lo <= start && start <= hi && lo <= end && end <= hi && end - start <= hi) {
        return false;
    }
    let r = (end - start).checked_rem_euclid(4 * w).unwrap();
    if r == 0 {
        return true;
    }
    let exp = 4 * w - r;
    let l = exp.checked_div_euclid(2).unwrap();
    if !(lo <= start - l && start - l <= hi) {
        return false;
    }
    if start - l < 0 {
        lo <= exp - start && exp - start <= hi && lo <= end + (exp - start) && end + (exp - start) <= hi
    } else {
        lo <= end + (exp - l) && end + (exp - l) <= hi
    }
}

/// `k` is the base-two logarithm of `n`, rounded up.
pub open spec fn is_ceil_log2(n: nat, k: nat) -> bool {
    pow2(k) >= n && (k == 0 || pow2((k - 1) as nat) < n)
}

/// The base-two logarithm of `n`, rounded up (zero for `n <= 1`).
pub open spec fn ceil_log2(n: nat) -> nat {
    choose|k: nat| is_ceil_log2(n, k)
}

/// Only one exponent is the rounded-up logarithm.
pub proof fn lemma_ceil_log2_unique(n: nat, k1: nat, k2: nat)
    requires
        is_ceil_log2(n, k1),
        is_ceil_log2(n, k2),
    ensures
        k1 == k2,
{
    if k1 < k2 {
        if k1 < (k2 - 1) as nat {
            lemma_pow2_strictly_increases(k1, (k2 - 1) as nat);
        }
    } else if k2 < k1 {
        if k2 < (k1 - 1) as nat {
            lemma_pow2_strictly_increases(k2, (k1 - 1) as nat);
        }
    }
}

/// The number of bins by Sturges's rule: one more than the rounded-up
/// base-two logarithm of the number of samples.
pub open spec fn sturges_bins(n: nat) -> nat {
    1 + ceil_log2(n)
}

/// The number of bins by Sturges's rule, for at most `usize::MAX / 2 + 1`
/// samples (beyond that the next power of two does not fit).
pub fn sturges_bin_count(n: usize) -> (bins: usize)
    requires
        n <= usize::MAX / 2 + 1,
    ensures
        bins == sturges_bins(n as nat),
        is_ceil_log2(n as nat, (bins - 1) as nat),
{
    let mut p: usize = 1;
    let mut k: usize = 0;
    proof {
        lemma2_to64();
    }
    while p < n
        invariant
            n <= usize::MAX / 2 + 1,
            1 <= p,
            k < p,
            p == pow2(k as nat),
            k == 0 || pow2((k - 1) as nat) < n,
        decreases usize::MAX - p,
    {
        proof {
            lemma_pow2_unfold((k + 1) as nat);
        }
        p = 2 * p;
        k = k + 1;
    }
    proof {
        let c = choose|j: nat| is_ceil_log2(n as nat, j);
        assert(is_ceil_log2(n as nat, k as nat));
        lemma_ceil_log2_unique(n as nat, c, k as nat);
    }
    k + 1
}

/// The bin of a value: its offset from `min` in bin widths, the last bin
/// holding everything beyond.
pub open spec fn bin_of(d: i64, min: i64, w: i64, last: int) -> int {
    let b = (d - min) / (w as int);
    if b < last {
        b
    } else {
        last
    }
}

/// The number of values of `data` in bin `k` of `n`.
pub open spec fn count_in_bin(data: Seq<i64>, min: i64, w: i64, n: int, k: int) -> int {
    data.filter(|d: i64| bin_of(d, min, w, n - 1) == k).len() as int
}

/// The number of values in each of `n` bins.
pub open spec fn bin_counts(data: Seq<i64>, min: i64, w: i64, n: int) -> Seq<int> {
    Seq::new(n as nat, |k: int| count_in_bin(data, min, w, n, k))
}

/// Counts the values of `data` (none below `min`) in each of `n` bins of
/// width `w`.
pub fn count_bins(data: &Vec<i64>, min: i64, w: i64, n: usize) -> (counts: Vec<i64>)
    requires
        n >= 1,
        w >= 1,
        data@.len() <= i64::MAX,
        forall|i: int| 0 <= i < data@.len() ==> min <= #[trigger] data@[i] && fits(data@[i] - min),
    ensures
        counts@.len() == n,
        forall|j: int| 0 <= j < n ==> counts@[j] == bin_counts(data@, min, w, n as int)[j],
{
    let mut counts: Vec<i64> = Vec::new();
    let mut j: usize = 0;
    while j < n
        invariant
            j <= n,
            counts@.len() == j,
            forall|k: int| 0 <= k < j ==> counts@[k] == 0,
        decreases n - j,
    {
        counts.push(0);
        j = j + 1;
    }
    let last: usize = n - 1;
    let mut i: usize = 0;
    while i < data.len()
        invariant
            n >= 1,
            w >= 1,
            last == n - 1,
            i <= data@.len(),
            data@.len() <= i64::MAX,
            counts@.len() == n,
            forall|k: int| 0 <= k < data@.len() ==> min <= #[trigger] data@[k] && fits(data@[k] - min),
            forall|k: int|
                0 <= k < n ==> #[trigger] counts@[k] == count_in_bin(data@.take(i as int), min, w, n as int, k),
        decreases data@.len() - i,
    {
        let d = data[i];
        let offset = (d - min) as u64;
        let q = offset / (w as u64);
        let b: usize = if q >= last as u64 {
            last
        } else {
            q as usize
        };
        proof {
            assert(bin_of(d, min, w, n - 1) == b);
            assert(data@.take(i + 1) =~= data@.take(i as int).push(d));
            assert forall|k: int| 0 <= k < n implies #[trigger] count_in_bin(data@.take(i + 1), min, w, n as int, k)
                == count_in_bin(data@.take(i as int), min, w, n as int, k) + (if k == b {
                1int
            } else {
                0int
            }) by {
                data@.take(i as int).lemma_filter_len_push(|x: i64| bin_of(x, min, w, n - 1) == k, d);
            }
            assert(count_in_bin(data@.take(i as int), min, w, n as int, b as int) <= i) by {
                data@.take(i as int).lemma_filter_len(|x: i64| bin_of(x, min, w, n - 1) == b as int);
            }
        }
        let c = counts[b];
        counts.set(b, c + 1);
        i = i + 1;
    }
    proof {
        assert(data@.take(data@.len() as int) =~= data@);
    }
    counts
}

} // verus!
