//! A histogram chart: the samples counted in bins of a readable width.
use vstd::prelude::*;
use crate::argsv2::chart_args::HistogramData;
use crate::binning::{
    alignment_fits, alignment_in_range, bin_counts, count_bins, histogram_x_axis_alignment, lemma_alignment,
    spec_alignment,
};
use crate::charting::axis_descriptor::AxisDescriptors;
use crate::charting::charts::ChartableData;
use crate::plotting::plots::{lemma_seq_min_max, resolve_axis_range, seq_max, seq_min};

verus! {

/// The number of bins of a chart: the requested number, fifty where none
/// was requested.
pub open spec fn chart_bin_count(bins: Option<usize>) -> nat {
    match bins {
        Some(b) => b as nat,
        None => 50,
    }
}

/// The bins that hold samples, in order, each with its number of samples.
pub open spec fn nonempty_bins(counts: Seq<int>) -> Seq<(u64, i64)>
    decreases counts.len(),
{
    if counts.len() == 0 {
        Seq::empty()
    } else {
        let r = nonempty_bins(counts.drop_last());
        if counts.last() > 0 {
            r.push(((counts.len() - 1) as u64, counts.last() as i64))
        } else {
            r
        }
    }
}

/// The histogram of a non-empty series can be computed.
pub open spec fn chart_histogram_fits(bins: Option<usize>, data: Seq<i64>) -> bool {
    &&& data.len() > 0
    &&& data.len() <= i64::MAX
    &&& alignment_fits(seq_min(data) as int, seq_max(data) as int, chart_bin_count(bins) as int)
}

/// Whether `chart_histogram_fits` holds: the histogram of the samples can
/// be computed with the requested bins.
pub fn histogram_chart_fits(bins: Option<usize>, data: &Vec<i64>) -> (r: bool)
    ensures
        r == chart_histogram_fits(bins, data@),
{
    if data.len() == 0 || data.len() as u64 > i64::MAX as u64 {
        return false;
    }
    let n: usize = match bins {
        Some(b) => b,
        None => 50,
    };
    let (min, max) = resolve_axis_range(data.as_slice());
    alignment_in_range(min, max, n as u64)
}

/// The bins and ranges of a histogram chart.
pub struct HistogramChart {
    _bins: u64,
    bin_width: u64,
    x_range: (i64, i64),
    y_range: (i64, i64),
    data: Vec<(u64, i64)>,
}

impl HistogramChart {
    /// The histogram of a non-empty series: the width and `x` range of the
    /// alignment of the samples' range over the bins, the bins that hold
    /// samples with their counts, and `y` from zero to the largest count.
    pub fn new(histogram_data: &HistogramData, data: &ChartableData, _axis_descriptor: &AxisDescriptors) -> (h: Self)
        requires
            match data {
                ChartableData::I64(v) => chart_histogram_fits(histogram_data.bins, v@),
            },
        ensures
            match data {
                ChartableData::I64(v) => {
                    let n = chart_bin_count(histogram_data.bins);
                    let a = spec_alignment(seq_min(v@) as int, seq_max(v@) as int, n as int);
                    let counts = bin_counts(v@, seq_min(v@), a.0 as i64, n as int);
                    &&& h.spec_bins() == n
                    &&& h.spec_bin_width() == a.0
                    &&& h.spec_x_range() == (a.1.0 as i64, a.1.1 as i64)
                    &&& h.spec_data() == nonempty_bins(counts)
                    &&& h.spec_y_range().0 == 0
                    &&& forall|k: int| 0 <= k < n ==> #[trigger] counts[k] <= h.spec_y_range().1
                    &&& (h.spec_y_range().1 == 0 || exists|k: int| 0 <= k < n && #[trigger] counts[k] == h.spec_y_range().1)
                },
            },
    {
        let ChartableData::I64(data) = data;
        let data_bins: usize = match histogram_data.bins {
            Some(b) => b,
            None => 50,
        };
        let (min, max) = resolve_axis_range(data.as_slice());
        proof {
            lemma_seq_min_max(data@);
            lemma_alignment(min as int, max as int, data_bins as int);
        }
        let (bin_width, x_range) = histogram_x_axis_alignment(min, max, data_bins as u64);
        let counts = count_bins(data, min, bin_width, data_bins);
        let ghost c = bin_counts(data@, min, bin_width, data_bins as int);
        let mut bins: Vec<(u64, i64)> = Vec::new();
        let mut largest: i64 = 0;
        let mut j: usize = 0;
        proof {
            assert(c.take(0) =~= Seq::<int>::empty());
        }
        while j < counts.len()
            invariant
                counts@.len() == data_bins,
                c.len() == data_bins,
                forall|k: int| 0 <= k < data_bins ==> counts@[k] == c[k],
                j <= data_bins,
                bins@ == nonempty_bins(c.take(j as int)),
                largest >= 0,
                forall|k: int| 0 <= k < j ==> #[trigger] c[k] <= largest,
                largest == 0 || exists|k: int| 0 <= k < j && #[trigger] c[k] == largest,
            decreases data_bins - j,
        {
            proof {
                assert(c.take(j + 1).drop_last() =~= c.take(j as int));
                assert(c.take(j + 1).last() == c[j as int]);
            }
            if counts[j] > 0 {
                bins.push((j as u64, counts[j]));
                if counts[j] > largest {
                    largest = counts[j];
                }
            }
            j = j + 1;
        }
        proof {
            assert(c.take(data_bins as int) =~= c);
            assert(bin_width as int == spec_alignment(min as int, max as int, data_bins as int).0);
            assert(c == bin_counts(data@, seq_min(data@), spec_alignment(seq_min(data@) as int, seq_max(data@) as int, data_bins as int).0 as i64, data_bins as int));
            if largest != 0 {
                let k = choose|k: int| 0 <= k < j && #[trigger] c[k] == largest;
                assert(c[k] == largest);
            }
        }
        HistogramChart {
            _bins: data_bins as u64,
            bin_width: bin_width as u64,
            x_range,
            y_range: (0, largest),
            data: bins,
        }
    }

    pub closed spec fn spec_bins(&self) -> nat {
        self._bins as nat
    }

    pub closed spec fn spec_bin_width(&self) -> int {
        self.bin_width as int
    }

    pub closed spec fn spec_x_range(&self) -> (i64, i64) {
        self.x_range
    }

    pub closed spec fn spec_y_range(&self) -> (i64, i64) {
        self.y_range
    }

    pub closed spec fn spec_data(&self) -> Seq<(u64, i64)> {
        self.data@
    }

    /// The width of a bin.
    pub fn bin_width(&self) -> (w: u64)
        ensures
            w == self.spec_bin_width(),
    {
        self.bin_width
    }

    /// The `x` range.
    pub fn x_range(&self) -> (r: (i64, i64))
        ensures
            r == self.spec_x_range(),
    {
        self.x_range
    }

    /// The `y` range.
    pub fn y_range(&self) -> (r: (i64, i64))
        ensures
            r == self.spec_y_range(),
    {
        self.y_range
    }

    /// The bins that hold samples, with their counts.
    pub fn bins(&self) -> (d: &Vec<(u64, i64)>)
        ensures
            d@ == self.spec_data(),
    {
        &self.data
    }
}

} // verus!
