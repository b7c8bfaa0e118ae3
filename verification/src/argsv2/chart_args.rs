//! The arguments of the `chart` subcommand.
use vstd::prelude::*;
use crate::argsv2::extract_args::AnalysisProperty;
use crate::decimal::{decimal, push_decimal};

verus! {

/// The arguments of the `chart` subcommand. Paths are held as text.
pub struct ChartArgs {
    /// Identifies the element in the dependency graph for which to generate the chart
    pub element_id: i64,
    /// Binary bundle file name or a directory containing the bundle
    pub input: String,
    /// Directory or filename where to store the chart
    pub output: Option<String>,
    /// Overwrite the output file if present
    pub overwrite: bool,
    pub chart: ChartRequest,
}

/// What to chart, at which size and in which form.
pub struct ChartRequest {
    /// The value to plot into the chart
    pub quantity: ChartedValue,
    /// The size of the image in pixels (width, height)
    pub size: (u32, u32),
    /// The type of chart to render the data as
    pub plot: ChartVariants,
}

/// The file-name stem of a charted value.
pub open spec fn value_stem(v: ChartedValue) -> Seq<char> {
    match v {
        ChartedValue::CallbackDuration => "execution_timing"@,
        ChartedValue::ActivationsDelay => "activations_delay"@,
        ChartedValue::PublicationsDelay => "publication_delay"@,
        ChartedValue::MessagesDelay => "message_delay"@,
        ChartedValue::MessagesLatency => "latency"@,
    }
}

/// The file-name part of a chart form: the histogram's bin count (0 where
/// none was given), or `scatter`.
pub open spec fn variant_stem(v: ChartVariants) -> Seq<char> {
    match v {
        ChartVariants::Histogram(h) => "histogram_"@ + decimal(
            match h.bins {
                Some(b) => b as nat,
                None => 0,
            },
        ),
        ChartVariants::Scatter => "scatter"@,
    }
}

impl ChartRequest {
    pub open spec fn spec_name_descriptor(&self) -> Seq<char> {
        value_stem(self.quantity) + "_"@ + variant_stem(self.plot) + "_"@ + decimal(
            self.size.0 as nat,
        ) + "x"@ + decimal(self.size.1 as nat)
    }

    /// A name for the chart: `<value>_<form>_<width>x<height>`.
    pub fn name_descriptor(&self) -> (s: String)
        ensures
            s@ == self.spec_name_descriptor(),
    {
        let value = match self.quantity {
            ChartedValue::CallbackDuration => "execution_timing",
            ChartedValue::ActivationsDelay => "activations_delay",
            ChartedValue::PublicationsDelay => "publication_delay",
            ChartedValue::MessagesDelay => "message_delay",
            ChartedValue::MessagesLatency => "latency",
        };
        let mut s = value.to_owned();
        s.append("_");
        match self.plot {
            ChartVariants::Histogram(hist_data) => {
                s.append("histogram_");
                let bins: usize = match hist_data.bins {
                    Some(b) => b,
                    None => 0,
                };
                push_decimal(&mut s, bins as u64);
            },
            ChartVariants::Scatter => {
                s.append("scatter");
            },
        }
        s.append("_");
        push_decimal(&mut s, self.size.0 as u64);
        s.append("x");
        push_decimal(&mut s, self.size.1 as u64);
        proof {
            assert(s@ =~= self.spec_name_descriptor());
        }
        s
    }
}

/// The image formats a chart can be written in.
#[derive(Debug, Clone, Copy, PartialEq, Eq, Structural)]
pub enum ChartOutputFormat {
    Svg,
    Png,
}

impl ChartOutputFormat {
    /// The default format.
    pub fn default() -> (f: Self)
        ensures
            f == ChartOutputFormat::Svg,
    {
        ChartOutputFormat::Svg
    }

    /// The format named by a file extension: `svg` or `png`, nothing else.
    pub fn try_from(value: &str) -> (r: Result<Self, OutputFormatError>)
        ensures
            value@ == "svg"@ ==> r == Ok::<Self, OutputFormatError>(ChartOutputFormat::Svg),
            value@ == "png"@ ==> r == Ok::<Self, OutputFormatError>(ChartOutputFormat::Png),
            value@ != "svg"@ && value@ != "png"@ ==> match r {
                Err(OutputFormatError::UnsupportedFormat(s)) => s@ == value@,
                Ok(_) => false,
            },
    {
        proof {
            reveal_strlit("svg");
            reveal_strlit("png");
            assert("svg"@[0] != "png"@[0]);
        }
        let v = value.to_owned();
        if v == "svg".to_owned() {
            Ok(ChartOutputFormat::Svg)
        } else if v == "png".to_owned() {
            Ok(ChartOutputFormat::Png)
        } else {
            Err(OutputFormatError::UnsupportedFormat(v))
        }
    }
}

/// A file format that is not supported.
pub enum OutputFormatError {
    UnsupportedFormat(String),
}

/// The value charted.
#[derive(Debug, Clone, Copy, PartialEq, Eq, Structural)]
pub enum ChartedValue {
    /// Callback execution durations
    CallbackDuration,
    /// Delays between callback or timer activations
    ActivationsDelay,
    /// Delays between publisher publications
    PublicationsDelay,
    /// Delays between subscriber messages
    MessagesDelay,
    /// Latency of a communication channel
    MessagesLatency,
}

impl ChartedValue {
    pub open spec fn spec_from(value: AnalysisProperty) -> ChartedValue {
        match value {
            AnalysisProperty::CallbackDuration => ChartedValue::CallbackDuration,
            AnalysisProperty::ActivationDelay => ChartedValue::ActivationsDelay,
            AnalysisProperty::PublicationDelay => ChartedValue::PublicationsDelay,
            AnalysisProperty::MessageDelay => ChartedValue::MessagesDelay,
            AnalysisProperty::MessageLatency => ChartedValue::MessagesLatency,
        }
    }

    /// The charted value of an analysis property.
    pub fn from(value: AnalysisProperty) -> (c: ChartedValue)
        ensures
            c == Self::spec_from(value),
    {
        match value {
            AnalysisProperty::CallbackDuration => ChartedValue::CallbackDuration,
            AnalysisProperty::ActivationDelay => ChartedValue::ActivationsDelay,
            AnalysisProperty::PublicationDelay => ChartedValue::PublicationsDelay,
            AnalysisProperty::MessageDelay => ChartedValue::MessagesDelay,
            AnalysisProperty::MessageLatency => ChartedValue::MessagesLatency,
        }
    }

    pub open spec fn spec_description(self) -> Seq<char> {
        match self {
            ChartedValue::CallbackDuration => "Callback execution time"@,
            ChartedValue::ActivationsDelay => "Delays between activations"@,
            ChartedValue::PublicationsDelay => "Delay between publication"@,
            ChartedValue::MessagesDelay => "Delay between"@,
            ChartedValue::MessagesLatency => "Latency"@,
        }
    }

    /// The human-readable description of the value.
    pub fn description(&self) -> (s: &'static str)
        ensures
            s@ == self.spec_description(),
    {
        match self {
            ChartedValue::CallbackDuration => "Callback execution time",
            ChartedValue::ActivationsDelay => "Delays between activations",
            ChartedValue::PublicationsDelay => "Delay between publication",
            ChartedValue::MessagesDelay => "Delay between",
            ChartedValue::MessagesLatency => "Latency",
        }
    }
}

/// The forms a chart can take.
#[derive(Debug, Clone, Copy, PartialEq, Eq, Structural)]
pub enum ChartVariants {
    Histogram(HistogramData),
    Scatter,
}

/// Parameters of a histogram.
#[derive(Debug, Clone, Copy, PartialEq, Eq, Structural)]
pub struct HistogramData {
    /// Number of bins to split the data into
    pub bins: Option<usize>,
}

} // verus!
