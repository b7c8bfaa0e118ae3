//! The errors that can occur while a chart is made.
use vstd::prelude::*;

verus! {

/// The errors of making a chart of a value of an element of the dependency graph.
pub enum ChartConstructionError {
    /// Rendering the image failed.
    DrawingError(String),
    /// An invalid coordinate system was requested.
    InvalidCoordinateSystem(String),
    /// A series could not be inserted into the chart.
    ChartSeriesError(String),
    /// The requested size (width, height) is too small.
    ChartSizeTooSmall(u32, u32),
    /// The requested size (width, height) has an aspect ratio below 0.5 or
    /// at least 2.
    ChartSizeRatio(u32, u32),
}

} // verus!
