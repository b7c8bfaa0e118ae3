//! A histogram plot: the samples counted in bins of a readable width.
use vstd::prelude::*;
use crate::argsv2::plot_args::HistogramData;
use crate::binning::{
    alignment_fits, alignment_in_range, bin_counts, lemma_alignment, count_bins, histogram_x_axis_alignment, spec_alignment,
    sturges_bin_count, sturges_bins,
};
use crate::dependency_graph::fits;
use crate::plotting::axis_descriptor::{AxisDescriptors, ScaledAxisDescriptor, scaled_quantity};
use crate::plotting::plots::{PlottableData, lemma_seq_min_max, resolve_axis_range, seq_max, seq_min};

verus! {

/// The number of bins: the requested number where it is not zero, else by
/// Sturges's rule.
pub open spec fn bin_count_for(bins: Option<usize>, n: nat) -> nat {
    match bins {
        Some(b) => if b != 0 {
            b as nat
        } else {
            sturges_bins(n)
        },
        None => sturges_bins(n),
    }
}

/// The histogram of `data` can be computed: the bin count and the alignment
/// fit the machine's integers.
pub open spec fn histogram_fits(bins: Option<usize>, data: Seq<i64>) -> bool {
    let n = bin_count_for(bins, data.len());
    let a = spec_alignment(seq_min(data) as int, seq_max(data) as int, n as int);
    &&& (bins is None || bins == Some(0usize)) ==> data.len() <= usize::MAX / 2 + 1
    &&& data.len() <= i64::MAX
    &&& alignment_fits(seq_min(data) as int, seq_max(data) as int, n as int)
    &&& fits(a.1.1 - a.1.0)
}

/// Whether `histogram_fits` holds: the histogram of the samples can be
/// computed with the requested bins.
pub fn histogram_plot_fits(bins: Option<usize>, data: &Vec<i64>) -> (r: bool)
    ensures
        r == histogram_fits(bins, data@),
{
    let n = data.len();
    let sturges = match bins {
        Some(b) => b == 0,
        None => true,
    };
    if sturges && n > usize::MAX / 2 + 1 {
        return false;
    }
    if n as u64 > i64::MAX as u64 {
        return false;
    }
    let bin_count: usize = match bins {
        Some(b) => if b != 0 {
            b
        } else {
            sturges_bin_count(n)
        },
        None => sturges_bin_count(n),
    };
    let (min, max) = if n == 0 {
        (0i64, 0i64)
    } else {
        resolve_axis_range(data.as_slice())
    };
    if !alignment_in_range(min, max, bin_count as u64) {
        return false;
    }
    let (_, x_range) = histogram_x_axis_alignment(min, max, bin_count as u64);
    let width = x_range.1 as i128 - x_range.0 as i128;
    i64::MIN as i128 <= width && width <= i64::MAX as i128
}

/// The bins, ranges and axis units of a histogram plot.
pub struct HistogramPlot {
    _bin_count: usize,
    bin_width: u64,
    x_range: (i64, i64),
    y_range: (i64, i64),
    data: Vec<i64>,
    scaled_axis: [ScaledAxisDescriptor; 2],
}

impl HistogramPlot {
    /// The histogram of the samples: the bin count, the width and `x` range
    /// of the alignment of the samples' range, the count of samples per bin,
    /// `y` from zero to the largest count, and axis units fitting half the
    /// `x` range and a count of one.
    pub fn new(histogram_data: &HistogramData, data: PlottableData, axis_descriptor: &AxisDescriptors) -> (h: Self)
        requires
            match data {
                PlottableData::I64(v) => histogram_fits(histogram_data.bins, v@),
            },
        ensures
            match data {
                PlottableData::I64(v) => {
                    let n = bin_count_for(histogram_data.bins, v@.len());
                    let a = spec_alignment(seq_min(v@) as int, seq_max(v@) as int, n as int);
                    let counts = bin_counts(v@, seq_min(v@), a.0 as i64, n as int);
                    &&& h.spec_bin_count() == n
                    &&& h.spec_bin_width() == a.0
                    &&& h.spec_x_range() == (a.1.0 as i64, a.1.1 as i64)
                    &&& h.spec_data().len() == n
                    &&& forall|j: int| 0 <= j < n ==> #[trigger] h.spec_data()[j] == counts[j]
                    &&& h.spec_y_range() == (0i64, seq_max(h.spec_data()))
                    &&& h.spec_scale_axis()[0].default_axis == axis_descriptor.x
                    &&& h.spec_scale_axis()[0].target == scaled_quantity(
                        axis_descriptor.x.quantity,
                        (a.1.1 - a.1.0) / 2,
                    )
                    &&& h.spec_scale_axis()[1].default_axis == axis_descriptor.y
                    &&& h.spec_scale_axis()[1].target == scaled_quantity(axis_descriptor.y.quantity, 1)
                },
            },
    {
        let PlottableData::I64(data) = data;
        let bin_count: usize = match histogram_data.bins {
            Some(bins) => if bins != 0 {
                bins
            } else {
                sturges_bin_count(data.len())
            },
            None => sturges_bin_count(data.len()),
        };
        let (min, max) = if data.len() == 0 {
            (0i64, 0i64)
        } else {
            resolve_axis_range(data.as_slice())
        };
        proof {
            if data@.len() > 0 {
                lemma_seq_min_max(data@);
            }
            lemma_alignment(min as int, max as int, bin_count as int);
        }
        let (bin_width, x_range) = histogram_x_axis_alignment(min, max, bin_count as u64);
        let binned = count_bins(&data, min, bin_width, bin_count);
        let y_range = resolve_axis_range(binned.as_slice());
        let half = (x_range.1 - x_range.0).checked_div_euclid(2).unwrap();
        let scaled_axis = [
            axis_descriptor.x.scaled_axis_unit(half),
            axis_descriptor.y.scaled_axis_unit(1),
        ];
        HistogramPlot {
            _bin_count: bin_count,
            bin_width: bin_width as u64,
            x_range,
            y_range: (0, y_range.1),
            data: binned,
            scaled_axis,
        }
    }

    pub closed spec fn spec_bin_count(&self) -> nat {
        self._bin_count as nat
    }

    pub closed spec fn spec_bin_width(&self) -> int {
        self.bin_width as int
    }

    pub closed spec fn spec_x_range(&self) -> (i64, i64) {
        self.x_range
    }

    pub closed spec fn spec_y_range(&self) -> (i64, i64) {
        self.y_range
    }

    pub closed spec fn spec_data(&self) -> Seq<i64> {
        self.data@
    }

    pub closed spec fn spec_scale_axis(&self) -> [ScaledAxisDescriptor; 2] {
        self.scaled_axis
    }

    /// The width of a bin.
    pub fn bin_width(&self) -> (w: u64)
        ensures
            w == self.spec_bin_width(),
    {
        self.bin_width
    }

    /// The `x` range.
    pub fn x_range(&self) -> (r: (i64, i64))
        ensures
            r == self.spec_x_range(),
    {
        self.x_range
    }

    /// The `y` range.
    pub fn y_range(&self) -> (r: (i64, i64))
        ensures
            r == self.spec_y_range(),
    {
        self.y_range
    }

    /// The number of samples in each bin.
    pub fn counts(&self) -> (d: &Vec<i64>)
        ensures
            d@ == self.spec_data(),
    {
        &self.data
    }

    /// The axes with the units their ticks are shown in.
    pub fn scale_axis(&self) -> (a: &[ScaledAxisDescriptor; 2])
        ensures
            *a == self.spec_scale_axis(),
    {
        &self.scaled_axis
    }
}

} // verus!
