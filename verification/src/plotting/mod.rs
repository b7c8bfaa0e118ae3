//! Plots of exported analysis data: axes, binning and layout.
pub mod axis_descriptor;
pub mod plots;

use vstd::prelude::*;

verus! {

/// Margins, label areas and font sizes of a plot.
#[derive(Debug, Clone, Copy)]
pub struct PlotSpacing {
    /// Margins of the actual plot: left, top, right, bottom
    pub margin: [i32; 4],
    /// Margins of the labels: left, top, right, bottom
    pub label_margin: [i32; 4],
    pub y_label_size: i32,
    pub x_label_size: i32,
    /// Font size of the axis description
    pub desc_size: i32,
}

/// The layout for small images (a side below 400 pixels).
pub open spec fn small_plot_spacing() -> PlotSpacing {
    PlotSpacing {
        margin: [16, 16, 16, 16],
        label_margin: [32, 0, 0, 32],
        y_label_size: 12,
        x_label_size: 12,
        desc_size: 14,
    }
}

/// The layout for medium images (both sides from 400 to below 800 pixels).
pub open spec fn medium_plot_spacing() -> PlotSpacing {
    PlotSpacing {
        margin: [16, 16, 16, 16],
        label_margin: [48, 0, 0, 48],
        y_label_size: 12,
        x_label_size: 12,
        desc_size: 20,
    }
}

/// The layout for large images (both sides at least 400 pixels, one at
/// least 800).
pub open spec fn large_plot_spacing() -> PlotSpacing {
    PlotSpacing {
        margin: [32, 32, 32, 32],
        label_margin: [82, 0, 0, 64],
        y_label_size: 20,
        x_label_size: 20,
        desc_size: 32,
    }
}

impl PlotSpacing {
    /// The layout for an image of `value.0` by `value.1` pixels.
    pub fn from(value: (u32, u32)) -> (s: PlotSpacing)
        ensures
            s == if value.0 < 400 || value.1 < 400 {
                small_plot_spacing()
            } else if value.0 < 800 && value.1 < 800 {
                medium_plot_spacing()
            } else {
                large_plot_spacing()
            },
    {
        if value.0 < 400 || value.1 < 400 {
            PlotSpacing {
                margin: [16, 16, 16, 16],
                label_margin: [32, 0, 0, 32],
                y_label_size: 12,
                x_label_size: 12,
                desc_size: 14,
            }
        } else if value.0 < 800 && value.1 < 800 {
            PlotSpacing {
                margin: [16, 16, 16, 16],
                label_margin: [48, 0, 0, 48],
                y_label_size: 12,
                x_label_size: 12,
                desc_size: 20,
            }
        } else {
            PlotSpacing {
                margin: [32, 32, 32, 32],
                label_margin: [82, 0, 0, 64],
                y_label_size: 20,
                x_label_size: 20,
                desc_size: 32,
            }
        }
    }
}

} // verus!
