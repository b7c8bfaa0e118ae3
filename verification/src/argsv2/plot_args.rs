//! The arguments of the `plot` subcommand.
use vstd::prelude::*;
use crate::argsv2::extract_args::AnalysisProperty;

verus! {

/// The arguments of the `plot` subcommand. Paths are held as text.
pub struct PlotArgs {
    /// Binary bundle file name or a directory containing the bundle
    pub input: String,
    /// File to write the image to; standard output where absent
    pub output: Option<String>,
    /// Overwrite the output file if present
    pub overwrite: bool,
    pub plot: PlotRequest,
}

/// What to plot, for which element, at which size and in which form.
pub struct PlotRequest {
    /// The property to plot
    pub property: PlottedValue,
    /// Identifies the element in the dependency graph for which to generate the plot
    pub element_id: i64,
    /// The size of the image in pixels (width, height)
    pub size: (u32, u32),
    /// The type of plot to render the data as
    pub plot: PlotVariants,
}

/// The image formats a plot can be written in.
#[derive(Debug, Clone, Copy, PartialEq, Eq, Structural)]
pub enum PlotOutputFormat {
    Svg,
    Png,
}

impl PlotOutputFormat {
    /// The default format.
    pub fn default() -> (f: Self)
        ensures
            f == PlotOutputFormat::Svg,
    {
        PlotOutputFormat::Svg
    }

    /// The format named by a file extension: `svg` or `png`, nothing else.
    pub fn try_from(value: &str) -> (r: Result<Self, OutputFormatError>)
        ensures
            value@ == "svg"@ ==> r == Ok::<Self, OutputFormatError>(PlotOutputFormat::Svg),
            value@ == "png"@ ==> r == Ok::<Self, OutputFormatError>(PlotOutputFormat::Png),
            value@ != "svg"@ && value@ != "png"@ ==> match r {
                Err(OutputFormatError::UnsupportedFormat(s)) => s@ == value@,
                Ok(_) => false,
            },
    {
        proof {
            reveal_strlit("svg");
            reveal_strlit("png");
            assert("svg"@[0] != "png"@[0]);
        }
        let v = value.to_owned();
        if v == "svg".to_owned() {
            Ok(PlotOutputFormat::Svg)
        } else if v == "png".to_owned() {
            Ok(PlotOutputFormat::Png)
        } else {
            Err(OutputFormatError::UnsupportedFormat(v))
        }
    }
}

/// A file format that is not supported.
pub enum OutputFormatError {
    UnsupportedFormat(String),
}

/// The value plotted.
pub type PlottedValue = AnalysisProperty;

/// The forms a plot can take.
#[derive(Debug, Clone, Copy, PartialEq, Eq, Structural)]
pub enum PlotVariants {
    Histogram(HistogramData),
    Scatter,
}

/// Parameters of a histogram.
#[derive(Debug, Clone, Copy, PartialEq, Eq, Structural)]
pub struct HistogramData {
    /// Number of bins to split the data into
    pub bins: Option<usize>,
}

} // verus!
