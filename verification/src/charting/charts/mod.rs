//! The data of a chart.
use vstd::prelude::*;

pub mod histogram;
pub mod scatter;

verus! {

/// The samples a chart shows.
pub enum ChartableData {
    I64(Vec<i64>),
}

} // verus!
