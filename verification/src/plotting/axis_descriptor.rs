//! Axis labels and units of a plot, and the choice of a readable unit for
//! the values an axis shows.
use vstd::prelude::*;
use crate::argsv2::extract_args::AnalysisProperty;
use crate::argsv2::plot_args::{PlotVariants, PlottedValue};

verus! {

/// Structure describing `x` and `y` axis formatting for a plot.
#[derive(Debug, Clone, Copy)]
pub struct AxisDescriptors {
    /// The formatting for the `x` axis
    pub x: AxisDescriptor,
    /// The formatting for the `y` axis
    pub y: AxisDescriptor,
}

/// The formatting to use when displaying axis label and ticks.
#[derive(Debug, Clone, Copy)]
pub struct AxisDescriptor {
    /// The main name of the axis
    pub label: &'static str,
    /// The quantity of the axis, with the unit its values are given in
    pub quantity: AxisQuantity,
}

/// A metric prefix.
#[derive(Debug, Clone, Copy, PartialEq, Eq, Structural)]
pub enum SiPrefix {
    Mega,
    Kilo,
    Base,
    Milli,
    Micro,
    Nano,
}

/// A unit of time.
#[derive(Debug, Clone, Copy, PartialEq, Eq, Structural)]
pub enum DurationUnit {
    Hour,
    Minute,
    Second,
    Millisecond,
    Microsecond,
    Nanosecond,
}

/// What an axis measures, and in which unit.
#[derive(Debug, Clone, Copy, PartialEq, Eq, Structural)]
pub enum AxisQuantity {
    Duration { base: DurationUnit },
    SimpleSi { base: SiPrefix, show_exponent: bool },
}

/// How many nano-units one unit with the prefix holds.
pub open spec fn si_scale(p: SiPrefix) -> int {
    match p {
        SiPrefix::Mega => 1_000_000_000_000_000,
        SiPrefix::Kilo => 1_000_000_000_000,
        SiPrefix::Base => 1_000_000_000,
        SiPrefix::Milli => 1_000_000,
        SiPrefix::Micro => 1_000,
        SiPrefix::Nano => 1,
    }
}

/// How many nanoseconds one unit of time holds.
pub open spec fn duration_scale(u: DurationUnit) -> int {
    match u {
        DurationUnit::Hour => 3_600_000_000_000,
        DurationUnit::Minute => 60_000_000_000,
        DurationUnit::Second => 1_000_000_000,
        DurationUnit::Millisecond => 1_000_000,
        DurationUnit::Microsecond => 1_000,
        DurationUnit::Nanosecond => 1,
    }
}

/// Whether a value given in a unit of scale `from` reads in a unit of scale
/// `to` as a number in `[0, 1000)`.
pub open spec fn reads_below_thousand(value: int, from: int, to: int) -> bool {
    0 <= value && value * from < 1000 * to
}

/// The finest prefix in which `value` (given with prefix `base`) reads below
/// a thousand; mega where none does.
pub open spec fn best_si_prefix(value: int, base: SiPrefix) -> SiPrefix {
    let b = si_scale(base);
    if reads_below_thousand(value, b, si_scale(SiPrefix::Nano)) {
        SiPrefix::Nano
    } else if reads_below_thousand(value, b, si_scale(SiPrefix::Micro)) {
        SiPrefix::Micro
    } else if reads_below_thousand(value, b, si_scale(SiPrefix::Milli)) {
        SiPrefix::Milli
    } else if reads_below_thousand(value, b, si_scale(SiPrefix::Base)) {
        SiPrefix::Base
    } else if reads_below_thousand(value, b, si_scale(SiPrefix::Kilo)) {
        SiPrefix::Kilo
    } else {
        SiPrefix::Mega
    }
}

/// The finest unit of time in which `value` (given in `base`) reads below a
/// thousand; hours where none does.
pub open spec fn best_duration_unit(value: int, base: DurationUnit) -> DurationUnit {
    let b = duration_scale(base);
    if reads_below_thousand(value, b, duration_scale(DurationUnit::Nanosecond)) {
        DurationUnit::Nanosecond
    } else if reads_below_thousand(value, b, duration_scale(DurationUnit::Microsecond)) {
        DurationUnit::Microsecond
    } else if reads_below_thousand(value, b, duration_scale(DurationUnit::Millisecond)) {
        DurationUnit::Millisecond
    } else if reads_below_thousand(value, b, duration_scale(DurationUnit::Second)) {
        DurationUnit::Second
    } else if reads_below_thousand(value, b, duration_scale(DurationUnit::Minute)) {
        DurationUnit::Minute
    } else {
        DurationUnit::Hour
    }
}

/// `reads_below_thousand` for a value that fits in an `i64` and scales of at
/// most `10^15`.
fn below_thousand(value: i64, from: i128, to: i128) -> (r: bool)
    requires
        1 <= from <= 1_000_000_000_000_000,
        1 <= to <= 1_000_000_000_000_000,
    ensures
        r == reads_below_thousand(value as int, from as int, to as int),
{
    if value < 0 {
        return false;
    }
    let v = value as i128;
    assert(0 <= v * from <= 9_223_372_036_854_775_807 * 1_000_000_000_000_000) by (nonlinear_arith)
        requires
            0 <= v <= 9_223_372_036_854_775_807,
            1 <= from <= 1_000_000_000_000_000,
    ;
    v * from < 1000 * to
}

impl SiPrefix {
    /// How many nano-units one unit with the prefix holds.
    pub fn scale(&self) -> (s: i128)
        ensures
            s == si_scale(*self),
    {
        match self {
            SiPrefix::Mega => 1_000_000_000_000_000,
            SiPrefix::Kilo => 1_000_000_000_000,
            SiPrefix::Base => 1_000_000_000,
            SiPrefix::Milli => 1_000_000,
            SiPrefix::Micro => 1_000,
            SiPrefix::Nano => 1,
        }
    }

    pub open spec fn spec_symbol(self) -> Seq<char> {
        match self {
            SiPrefix::Mega => "M"@,
            SiPrefix::Kilo => "k"@,
            SiPrefix::Base => ""@,
            SiPrefix::Milli => "m"@,
            SiPrefix::Micro => "μ"@,
            SiPrefix::Nano => "n"@,
        }
    }

    /// The prefix as written before a unit.
    pub fn symbol(&self) -> (s: &'static str)
        ensures
            s@ == self.spec_symbol(),
    {
        match self {
            SiPrefix::Mega => "M",
            SiPrefix::Kilo => "k",
            SiPrefix::Base => "",
            SiPrefix::Milli => "m",
            SiPrefix::Micro => "μ",
            SiPrefix::Nano => "n",
        }
    }

    pub open spec fn spec_exponent(self) -> Seq<char> {
        match self {
            SiPrefix::Mega => "10⁶"@,
            SiPrefix::Kilo => "10³"@,
            SiPrefix::Base => ""@,
            SiPrefix::Milli => "10⁻³"@,
            SiPrefix::Micro => "10⁻⁶"@,
            SiPrefix::Nano => "10⁻⁹"@,
        }
    }

    /// The power of ten the prefix stands for.
    pub fn exponent(&self) -> (s: &'static str)
        ensures
            s@ == self.spec_exponent(),
    {
        match self {
            SiPrefix::Mega => "10⁶",
            SiPrefix::Kilo => "10³",
            SiPrefix::Base => "",
            SiPrefix::Milli => "10⁻³",
            SiPrefix::Micro => "10⁻⁶",
            SiPrefix::Nano => "10⁻⁹",
        }
    }
}

impl DurationUnit {
    /// How many nanoseconds one unit holds.
    pub fn scale(&self) -> (s: i128)
        ensures
            s == duration_scale(*self),
    {
        match self {
            DurationUnit::Hour => 3_600_000_000_000,
            DurationUnit::Minute => 60_000_000_000,
            DurationUnit::Second => 1_000_000_000,
            DurationUnit::Millisecond => 1_000_000,
            DurationUnit::Microsecond => 1_000,
            DurationUnit::Nanosecond => 1,
        }
    }

    pub open spec fn spec_symbol(self) -> Seq<char> {
        match self {
            DurationUnit::Hour => "h"@,
            DurationUnit::Minute => "m"@,
            DurationUnit::Second => "s"@,
            DurationUnit::Millisecond => "ms"@,
            DurationUnit::Microsecond => "μs"@,
            DurationUnit::Nanosecond => "ns"@,
        }
    }

    /// The unit's symbol.
    pub fn symbol(&self) -> (s: &'static str)
        ensures
            s@ == self.spec_symbol(),
    {
        match self {
            DurationUnit::Hour => "h",
            DurationUnit::Minute => "m",
            DurationUnit::Second => "s",
            DurationUnit::Millisecond => "ms",
            DurationUnit::Microsecond => "μs",
            DurationUnit::Nanosecond => "ns",
        }
    }
}

impl AxisQuantity {
    pub fn new_duration(unit: DurationUnit) -> (q: Self)
        ensures
            q == (AxisQuantity::Duration { base: unit }),
    {
        AxisQuantity::Duration { base: unit }
    }

    pub fn new_si(unit: SiPrefix, show_exponent: bool) -> (q: Self)
        ensures
            q == (AxisQuantity::SimpleSi { base: unit, show_exponent }),
    {
        AxisQuantity::SimpleSi { base: unit, show_exponent }
    }
}

/// An axis together with the unit its ticks are shown in.
#[derive(Debug, Clone, Copy)]
pub struct ScaledAxisDescriptor {
    pub default_axis: AxisDescriptor,
    pub target: AxisQuantity,
}

/// The unit chosen to show `fit_to_value` on an axis of quantity `q`: same
/// kind of quantity, the finest unit in which the value reads below a
/// thousand.
pub open spec fn scaled_quantity(q: AxisQuantity, fit_to_value: int) -> AxisQuantity {
    match q {
        AxisQuantity::Duration { base } => AxisQuantity::Duration {
            base: best_duration_unit(fit_to_value, base),
        },
        AxisQuantity::SimpleSi { base, show_exponent } => AxisQuantity::SimpleSi {
            base: best_si_prefix(fit_to_value, base),
            show_exponent,
        },
    }
}

impl AxisDescriptor {
    /// This axis together with a unit in which `fit_to_value` reads well.
    pub fn scaled_axis_unit(&self, fit_to_value: i64) -> (s: ScaledAxisDescriptor)
        ensures
            s.default_axis == *self,
            s.target == scaled_quantity(self.quantity, fit_to_value as int),
    {
        let target = match self.quantity {
            AxisQuantity::Duration { base } => {
                let b = base.scale();
                let unit = if below_thousand(fit_to_value, b, DurationUnit::Nanosecond.scale()) {
                    DurationUnit::Nanosecond
                } else if below_thousand(fit_to_value, b, DurationUnit::Microsecond.scale()) {
                    DurationUnit::Microsecond
                } else if below_thousand(fit_to_value, b, DurationUnit::Millisecond.scale()) {
                    DurationUnit::Millisecond
                } else if below_thousand(fit_to_value, b, DurationUnit::Second.scale()) {
                    DurationUnit::Second
                } else if below_thousand(fit_to_value, b, DurationUnit::Minute.scale()) {
                    DurationUnit::Minute
                } else {
                    DurationUnit::Hour
                };
                AxisQuantity::new_duration(unit)
            },
            AxisQuantity::SimpleSi { base, show_exponent } => {
                let b = base.scale();
                let prefix = if below_thousand(fit_to_value, b, SiPrefix::Nano.scale()) {
                    SiPrefix::Nano
                } else if below_thousand(fit_to_value, b, SiPrefix::Micro.scale()) {
                    SiPrefix::Micro
                } else if below_thousand(fit_to_value, b, SiPrefix::Milli.scale()) {
                    SiPrefix::Milli
                } else if below_thousand(fit_to_value, b, SiPrefix::Base.scale()) {
                    SiPrefix::Base
                } else if below_thousand(fit_to_value, b, SiPrefix::Kilo.scale()) {
                    SiPrefix::Kilo
                } else {
                    SiPrefix::Mega
                };
                AxisQuantity::new_si(prefix, show_exponent)
            },
        };
        ScaledAxisDescriptor { default_axis: *self, target }
    }
}

impl ScaledAxisDescriptor {
    /// The axis title: the label with the unit in brackets; for a plain
    /// count, the label alone; for a prefixed count shown by exponent, the
    /// label followed by `×` and the power of ten.
    pub open spec fn spec_name(&self) -> Seq<char> {
        let label = self.default_axis.label@;
        match self.target {
            AxisQuantity::Duration { base } => label + " ["@ + base.spec_symbol() + "]"@,
            AxisQuantity::SimpleSi { base, show_exponent } => if base == SiPrefix::Base {
                label
            } else if show_exponent {
                label + " ×"@ + base.spec_exponent()
            } else {
                label + " ["@ + base.spec_symbol() + "]"@
            },
        }
    }

    pub fn name(&self) -> (s: String)
        ensures
            s@ == self.spec_name(),
    {
        let mut s = self.default_axis.label.to_owned();
        match self.target {
            AxisQuantity::Duration { base } => {
                s.append(" [");
                s.append(base.symbol());
                s.append("]");
            },
            AxisQuantity::SimpleSi { base, show_exponent } => {
                if base == SiPrefix::Base {
                } else if show_exponent {
                    s.append(" ×");
                    s.append(base.exponent());
                } else {
                    s.append(" [");
                    s.append(base.symbol());
                    s.append("]");
                }
            },
        }
        s
    }
}

/// The axis of the plotted value itself, in nanoseconds.
pub open spec fn value_axis(v: PlottedValue) -> AxisDescriptor {
    AxisDescriptor {
        label: match v {
            AnalysisProperty::CallbackDuration => "Duration",
            AnalysisProperty::ActivationDelay => "Delay",
            AnalysisProperty::PublicationDelay => "Delay",
            AnalysisProperty::MessageDelay => "Delay",
            AnalysisProperty::MessageLatency => "Latency",
        },
        quantity: AxisQuantity::Duration { base: DurationUnit::Nanosecond },
    }
}

/// The axis counting samples of a histogram.
pub open spec fn count_axis(v: PlottedValue) -> AxisDescriptor {
    AxisDescriptor {
        label: match v {
            AnalysisProperty::CallbackDuration => "Callbacks",
            AnalysisProperty::ActivationDelay => "Activations",
            AnalysisProperty::PublicationDelay => "Publications",
            AnalysisProperty::MessageDelay => "Messages",
            AnalysisProperty::MessageLatency => "Message",
        },
        quantity: AxisQuantity::SimpleSi { base: SiPrefix::Base, show_exponent: true },
    }
}

/// The axis numbering the samples of a scatter plot.
pub open spec fn index_axis(v: PlottedValue) -> AxisDescriptor {
    AxisDescriptor {
        label: match v {
            AnalysisProperty::CallbackDuration => "Callback #",
            AnalysisProperty::ActivationDelay => "Activation #",
            AnalysisProperty::PublicationDelay => "Publication #",
            AnalysisProperty::MessageDelay => "Message #",
            AnalysisProperty::MessageLatency => "Message #",
        },
        quantity: AxisQuantity::SimpleSi { base: SiPrefix::Base, show_exponent: true },
    }
}

/// A histogram shows the value along `x` and the counts along `y`; a scatter
/// plot numbers the samples along `x` and shows the value along `y`.
pub open spec fn spec_axis_descriptors(v: PlottedValue, variant: PlotVariants) -> AxisDescriptors {
    match variant {
        PlotVariants::Histogram(_) => AxisDescriptors { x: value_axis(v), y: count_axis(v) },
        PlotVariants::Scatter => AxisDescriptors { x: index_axis(v), y: value_axis(v) },
    }
}

/// The axes of a plot of `plotted_value` in the form `plot_variant`.
pub fn resolve_axis_descriptors(plotted_value: PlottedValue, plot_variant: &PlotVariants) -> (d: AxisDescriptors)
    ensures
        d == spec_axis_descriptors(plotted_value, *plot_variant),
{
    let value_label = match plotted_value {
        AnalysisProperty::CallbackDuration => "Duration",
        AnalysisProperty::ActivationDelay => "Delay",
        AnalysisProperty::PublicationDelay => "Delay",
        AnalysisProperty::MessageDelay => "Delay",
        AnalysisProperty::MessageLatency => "Latency",
    };
    let value = AxisDescriptor {
        label: value_label,
        quantity: AxisQuantity::new_duration(DurationUnit::Nanosecond),
    };
    match plot_variant {
        PlotVariants::Histogram(_) => {
            let count_label = match plotted_value {
                AnalysisProperty::CallbackDuration => "Callbacks",
                AnalysisProperty::ActivationDelay => "Activations",
                AnalysisProperty::PublicationDelay => "Publications",
                AnalysisProperty::MessageDelay => "Messages",
                AnalysisProperty::MessageLatency => "Message",
            };
            AxisDescriptors {
                x: value,
                y: AxisDescriptor {
                    label: count_label,
                    quantity: AxisQuantity::new_si(SiPrefix::Base, true),
                },
            }
        },
        PlotVariants::Scatter => {
            let index_label = match plotted_value {
                AnalysisProperty::CallbackDuration => "Callback #",
                AnalysisProperty::ActivationDelay => "Activation #",
                AnalysisProperty::PublicationDelay => "Publication #",
                AnalysisProperty::MessageDelay => "Message #",
                AnalysisProperty::MessageLatency => "Message #",
            };
            AxisDescriptors {
                x: AxisDescriptor {
                    label: index_label,
                    quantity: AxisQuantity::new_si(SiPrefix::Base, true),
                },
                y: value,
            }
        },
    }
}

} // verus!
