//! The command line of the tool, as plain values: what each subcommand asks for.
use vstd::prelude::*;
use crate::analyses::AnalysisSelection;

pub mod chart_args;
pub mod extract_args;
pub mod plot_args;

verus! {

/// The subcommands of the tool.
pub enum TracerCommand {
    /// Analyze a ROS 2 trace and store the result either as a binary bundle
    /// or separate files.
    Analyze(Box<AnalysisSelection>),
    /// Render a plot of a selected analysis result.
    Plot(plot_args::PlotArgs),
    /// Start an interactive results graph viewer with plot previews.
    Viewer,
    /// Retrieve data from the binary bundle produced by the analysis.
    Extract(extract_args::ExtractArgs),
}

impl TracerCommand {
    pub open spec fn spec_name(&self) -> Seq<char> {
        match self {
            TracerCommand::Analyze(_) => "analyze"@,
            TracerCommand::Plot(_) => "plot"@,
            TracerCommand::Viewer => "viewer"@,
            TracerCommand::Extract(_) => "extract"@,
        }
    }

    /// The name of the subcommand, as typed on the command line.
    pub fn name(&self) -> (s: &'static str)
        ensures
            s@ == self.spec_name(),
    {
        match self {
            TracerCommand::Analyze(_) => "analyze",
            TracerCommand::Plot(_) => "plot",
            TracerCommand::Viewer => "viewer",
            TracerCommand::Extract(_) => "extract",
        }
    }

    /// The analysis arguments of the `analyze` subcommand; only that
    /// subcommand has them.
    pub fn into_analysis_args(self) -> (a: AnalysisSelection)
        requires
            self is Analyze,
        ensures
            self matches TracerCommand::Analyze(b) && a == *b,
    {
        match self {
            TracerCommand::Analyze(a) => *a,
            _ => vstd::pervasive::unreached(),
        }
    }
}

} // verus!
