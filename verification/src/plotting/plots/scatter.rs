//! A scatter plot: each sample against its position in the series.
use vstd::prelude::*;
use crate::plotting::axis_descriptor::{AxisDescriptors, ScaledAxisDescriptor, scaled_quantity};
use crate::plotting::plots::{PlottableData, resolve_axis_range, seq_max, seq_min};

verus! {

/// The points, ranges and axis units of a scatter plot.
pub struct ScatterPlot {
    x_range: (i64, i64),
    y_range: (i64, i64),
    data: Vec<(i64, i64)>,
    scaled_axis: [ScaledAxisDescriptor; 2],
}

impl ScatterPlot {
    /// A scatter plot of a non-empty series: sample `i` at `(i, value)`,
    /// `x` from zero to the number of samples, `y` from the smallest to the
    /// largest value, and axis units that fit those ends.
    pub fn new(data: PlottableData, axis_descriptors: &AxisDescriptors) -> (p: Self)
        requires
            match data {
                PlottableData::I64(v) => 0 < v@.len() <= i64::MAX,
            },
        ensures
            match data {
                PlottableData::I64(v) => {
                    &&& p.spec_x_range() == (0i64, v@.len() as i64)
                    &&& p.spec_y_range() == (seq_min(v@), seq_max(v@))
                    &&& p.spec_data().len() == v@.len()
                    &&& forall|i: int| 0 <= i < v@.len() ==> #[trigger] p.spec_data()[i] == (i as i64, v@[i])
                    &&& p.spec_scale_axis()[0].default_axis == axis_descriptors.x
                    &&& p.spec_scale_axis()[0].target == scaled_quantity(axis_descriptors.x.quantity, v@.len() as int)
                    &&& p.spec_scale_axis()[1].default_axis == axis_descriptors.y
                    &&& p.spec_scale_axis()[1].target == scaled_quantity(axis_descriptors.y.quantity, seq_max(v@) as int)
                },
            },
    {
        let PlottableData::I64(data) = data;
        let x_range = (0i64, data.len() as i64);
        let y_range = resolve_axis_range(data.as_slice());
        let scaled_axis = [
            axis_descriptors.x.scaled_axis_unit(x_range.1),
            axis_descriptors.y.scaled_axis_unit(y_range.1),
        ];
        let mut points: Vec<(i64, i64)> = Vec::new();
        let mut i: usize = 0;
        while i < data.len()
            invariant
                i <= data@.len(),
                data@.len() <= i64::MAX,
                points@.len() == i,
                forall|j: int| 0 <= j < i ==> #[trigger] points@[j] == (j as i64, data@[j]),
            decreases data@.len() - i,
        {
            points.push((i as i64, data[i]));
            i = i + 1;
        }
        ScatterPlot { x_range, y_range, data: points, scaled_axis }
    }

    pub closed spec fn spec_x_range(&self) -> (i64, i64) {
        self.x_range
    }

    pub closed spec fn spec_y_range(&self) -> (i64, i64) {
        self.y_range
    }

    pub closed spec fn spec_data(&self) -> Seq<(i64, i64)> {
        self.data@
    }

    pub closed spec fn spec_scale_axis(&self) -> [ScaledAxisDescriptor; 2] {
        self.scaled_axis
    }

    /// The `x` range: from zero to the number of samples.
    pub fn x_range(&self) -> (r: (i64, i64))
        ensures
            r == self.spec_x_range(),
    {
        self.x_range
    }

    /// The `y` range: from the smallest to the largest value.
    pub fn y_range(&self) -> (r: (i64, i64))
        ensures
            r == self.spec_y_range(),
    {
        self.y_range
    }

    /// The points, in order.
    pub fn points(&self) -> (d: &Vec<(i64, i64)>)
        ensures
            d@ == self.spec_data(),
    {
        &self.data
    }

    /// The axes with the units their ticks are shown in.
    pub fn scale_axis(&self) -> (a: &[ScaledAxisDescriptor; 2])
        ensures
            *a == self.spec_scale_axis(),
    {
        &self.scaled_axis
    }
}

} // verus!
