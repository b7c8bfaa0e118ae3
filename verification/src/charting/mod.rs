//! Charts of exported analysis data: axes, data and layout.
pub mod axis_descriptor;
pub mod charts;
pub mod error;

use vstd::prelude::*;
use crate::charting::error::ChartConstructionError;

verus! {

/// Margins, label areas and font sizes of a chart.
#[derive(Debug, Clone, Copy)]
pub struct ChartSpacing {
    /// Margins of the actual chart: left, top, right, bottom
    pub margin: [i32; 4],
    /// Margins of the labels: left, top, right, bottom
    pub label_margin: [i32; 4],
    /// Font size of the tick labels: left, bottom
    pub label_size: [i32; 2],
    /// Font size of the axis description
    pub desc_size: i32,
}

/// The width-to-height ratio lies in `[0.5, 2)`.
pub open spec fn aspect_ratio_ok(width: int, height: int) -> bool {
    height <= 2 * width && width < 2 * height
}

/// The layout for medium images (both sides from 400 to below 800 pixels).
pub open spec fn medium_chart_spacing() -> ChartSpacing {
    ChartSpacing { margin: [16, 16, 16, 16], label_margin: [48, 0, 0, 48], label_size: [12, 12], desc_size: 20 }
}

/// The layout for large images (a side of at least 800 pixels).
pub open spec fn large_chart_spacing() -> ChartSpacing {
    ChartSpacing { margin: [32, 32, 32, 32], label_margin: [82, 0, 0, 64], label_size: [20, 20], desc_size: 32 }
}

/// The layout for an image of `w` by `h` pixels: refused where the aspect
/// ratio is off, or where the image is too small for any layout.
pub open spec fn spec_chart_spacing(w: u32, h: u32) -> Result<ChartSpacing, ChartConstructionError> {
    if !aspect_ratio_ok(w as int, h as int) {
        Err(ChartConstructionError::ChartSizeRatio(w, h))
    } else if 400 <= w < 800 && 400 <= h < 800 {
        Ok(medium_chart_spacing())
    } else if w >= 800 || h >= 800 {
        Ok(large_chart_spacing())
    } else {
        Err(ChartConstructionError::ChartSizeTooSmall(w, h))
    }
}

impl ChartSpacing {
    /// The layout for an image of `value.0` by `value.1` pixels.
    pub fn try_from(value: (u32, u32)) -> (r: Result<ChartSpacing, ChartConstructionError>)
        ensures
            r == spec_chart_spacing(value.0, value.1),
    {
        let (w, h) = value;
        let w64 = w as u64;
        let h64 = h as u64;
        if !(h64 <= 2 * w64 && w64 < 2 * h64) {
            return Err(ChartConstructionError::ChartSizeRatio(w, h));
        }
        if 400 <= w && w < 800 && 400 <= h && h < 800 {
            Ok(ChartSpacing { margin: [16, 16, 16, 16], label_margin: [48, 0, 0, 48], label_size: [12, 12], desc_size: 20 })
        } else if w >= 800 || h >= 800 {
            Ok(ChartSpacing { margin: [32, 32, 32, 32], label_margin: [82, 0, 0, 64], label_size: [20, 20], desc_size: 32 })
        } else {
            Err(ChartConstructionError::ChartSizeTooSmall(w, h))
        }
    }
}

} // verus!
