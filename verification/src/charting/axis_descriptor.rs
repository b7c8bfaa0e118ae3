//! Axis labels and units of a chart, and the choice of a readable unit for
//! the values an axis shows.
use vstd::prelude::*;
use crate::argsv2::chart_args::{ChartVariants, ChartedValue};

verus! {

/// Structure describing `x` and `y` axis formatting for a chart.
#[derive(Debug, Clone, Copy)]
pub struct AxisDescriptors {
    /// The formatting for the `x` axis
    pub x: AxisDescriptor,
    /// The formatting for the `y` axis
    pub y: AxisDescriptor,
}

/// The formatting to use when displaying axis label and ticks.
#[derive(Debug, Clone, Copy)]
pub struct AxisDescriptor {
    /// The main name of the axis
    pub label: &'static str,
    /// The quantity of the axis, with the unit its values are given in
    pub quantity: AxisQuantity,
}

/// A metric prefix.
#[derive(Debug, Clone, Copy, PartialEq, Eq, Structural)]
pub enum SiPrefix {
    Mega,
    Kilo,
    Base,
    Milli,
    Micro,
    Nano,
}

/// A unit of time.
#[derive(Debug, Clone, Copy, PartialEq, Eq, Structural)]
pub enum DurationUnit {
    Hour,
    Minute,
    Second,
    Millisecond,
    Microsecond,
    Nanosecond,
}

/// What an axis measures, and in which unit.
#[derive(Debug, Clone, Copy, PartialEq, Eq, Structural)]
pub enum AxisQuantity {
    Duration { base: DurationUnit },
    SimpleSi { base: SiPrefix },
}

/// How many nano-units one unit with the prefix holds.
pub open spec fn si_scale(p: SiPrefix) -> int {
    match p {
        SiPrefix::Mega => 1_000_000_000_000_000,
        SiPrefix::Kilo => 1_000_000_000_000,
        SiPrefix::Base => 1_000_000_000,
        SiPrefix::Milli => 1_000_000,
        SiPrefix::Micro => 1_000,
        SiPrefix::Nano => 1,
    }
}

/// How many nanoseconds one unit of time holds.
pub open spec fn duration_scale(u: DurationUnit) -> int {
    match u {
        DurationUnit::Hour => 3_600_000_000_000,
        DurationUnit::Minute => 60_000_000_000,
        DurationUnit::Second => 1_000_000_000,
        DurationUnit::Millisecond => 1_000_000,
        DurationUnit::Microsecond => 1_000,
        DurationUnit::Nanosecond => 1,
    }
}

/// Whether a value given in a unit of scale `from` reads in a unit of scale
/// `to` as a number in `[0, 1000)`.
pub open spec fn reads_below_thousand(value: int, from: int, to: int) -> bool {
    0 <= value && value * from < 1000 * to
}

/// The finest prefix in which `value` (given with prefix `base`) reads below
/// a thousand; mega where none does.
pub open spec fn best_si_prefix(value: int, base: SiPrefix) -> SiPrefix {
    let b = si_scale(base);
    if reads_below_thousand(value, b, si_scale(SiPrefix::Nano)) {
        SiPrefix::Nano
    } else if reads_below_thousand(value, b, si_scale(SiPrefix::Micro)) {
        SiPrefix::Micro
    } else if reads_below_thousand(value, b, si_scale(SiPrefix::Milli)) {
        SiPrefix::Milli
    } else if reads_below_thousand(value, b, si_scale(SiPrefix::Base)) {
        SiPrefix::Base
    } else if reads_below_thousand(value, b, si_scale(SiPrefix::Kilo)) {
        SiPrefix::Kilo
    } else {
        SiPrefix::Mega
    }
}

/// The finest unit of time in which `value` (given in `base`) reads below a
/// thousand; hours where none does.
pub open spec fn best_duration_unit(value: int, base: DurationUnit) -> DurationUnit {
    let b = duration_scale(base);
    if reads_below_thousand(value, b, duration_scale(DurationUnit::Nanosecond)) {
        DurationUnit::Nanosecond
    } else if reads_below_thousand(value, b, duration_scale(DurationUnit::Microsecond)) {
        DurationUnit::Microsecond
    } else if reads_below_thousand(value, b, duration_scale(DurationUnit::Millisecond)) {
        DurationUnit::Millisecond
    } else if reads_below_thousand(value, b, duration_scale(DurationUnit::Second)) {
        DurationUnit::Second
    } else if reads_below_thousand(value, b, duration_scale(DurationUnit::Minute)) {
        DurationUnit::Minute
    } else {
        DurationUnit::Hour
    }
}

/// `reads_below_thousand` for a value that fits in an `i64` and scales of at
/// most `10^15`.
fn below_thousand(value: i64, from: i128, to: i128) -> (r: bool)
    requires
        1 <= from <= 1_000_000_000_000_000,
        1 <= to <= 1_000_000_000_000_000,
    ensures
        r == reads_below_thousand(value as int, from as int, to as int),
{
    if value < 0 {
        return false;
    }
    let v = value as i128;
    assert(0 <= v * from <= 9_223_372_036_854_775_807 * 1_000_000_000_000_000) by (nonlinear_arith)
        requires
            0 <= v <= 9_223_372_036_854_775_807,
            1 <= from <= 1_000_000_000_000_000,
    ;
    v * from < 1000 * to
}

impl SiPrefix {
    /// How many nano-units one unit with the prefix holds.
    pub fn scale(&self) -> (s: i128)
        ensures
            s == si_scale(*self),
    {
        match self {
            SiPrefix::Mega => 1_000_000_000_000_000,
            SiPrefix::Kilo => 1_000_000_000_000,
            SiPrefix::Base => 1_000_000_000,
            SiPrefix::Milli => 1_000_000,
            SiPrefix::Micro => 1_000,
            SiPrefix::Nano => 1,
        }
    }

    pub open spec fn spec_symbol(self) -> Seq<char> {
        match self {
            SiPrefix::Mega => "M"@,
            SiPrefix::Kilo => "k"@,
            SiPrefix::Base => ""@,
            SiPrefix::Milli => "m"@,
            SiPrefix::Micro => "μ"@,
            SiPrefix::Nano => "n"@,
        }
    }

    /// The prefix as written before a unit.
    pub fn symbol(&self) -> (s: &'static str)
        ensures
            s@ == self.spec_symbol(),
    {
        match self {
            SiPrefix::Mega => "M",
            SiPrefix::Kilo => "k",
            SiPrefix::Base => "",
            SiPrefix::Milli => "m",
            SiPrefix::Micro => "μ",
            SiPrefix::Nano => "n",
        }
    }
}

impl DurationUnit {
    /// How many nanoseconds one unit holds.
    pub fn scale(&self) -> (s: i128)
        ensures
            s == duration_scale(*self),
    {
        match self {
            DurationUnit::Hour => 3_600_000_000_000,
            DurationUnit::Minute => 60_000_000_000,
            DurationUnit::Second => 1_000_000_000,
            DurationUnit::Millisecond => 1_000_000,
            DurationUnit::Microsecond => 1_000,
            DurationUnit::Nanosecond => 1,
        }
    }

    pub open spec fn spec_symbol(self) -> Seq<char> {
        match self {
            DurationUnit::Hour => "h"@,
            DurationUnit::Minute => "m"@,
            DurationUnit::Second => "s"@,
            DurationUnit::Millisecond => "ms"@,
            DurationUnit::Microsecond => "μs"@,
            DurationUnit::Nanosecond => "ns"@,
        }
    }

    /// The unit's symbol.
    pub fn symbol(&self) -> (s: &'static str)
        ensures
            s@ == self.spec_symbol(),
    {
        match self {
            DurationUnit::Hour => "h",
            DurationUnit::Minute => "m",
            DurationUnit::Second => "s",
            DurationUnit::Millisecond => "ms",
            DurationUnit::Microsecond => "μs",
            DurationUnit::Nanosecond => "ns",
        }
    }
}

impl AxisQuantity {
    pub fn new_duration(unit: DurationUnit) -> (q: Self)
        ensures
            q == (AxisQuantity::Duration { base: unit }),
    {
        AxisQuantity::Duration { base: unit }
    }

    pub fn new_si(unit: SiPrefix) -> (q: Self)
        ensures
            q == (AxisQuantity::SimpleSi { base: unit }),
    {
        AxisQuantity::SimpleSi { base: unit }
    }
}

/// An axis together with the unit its ticks are shown in.
#[derive(Debug, Clone, Copy)]
pub struct ScaledAxisDescriptor {
    pub default_axis: AxisDescriptor,
    pub target: AxisQuantity,
}

/// The unit chosen to show `fit_to_value` on an axis of quantity `q`: same
/// kind of quantity, the finest unit in which the value reads below a
/// thousand.
pub open spec fn scaled_quantity(q: AxisQuantity, fit_to_value: int) -> AxisQuantity {
    match q {
        AxisQuantity::Duration { base } => AxisQuantity::Duration {
            base: best_duration_unit(fit_to_value, base),
        },
        AxisQuantity::SimpleSi { base } => AxisQuantity::SimpleSi {
            base: best_si_prefix(fit_to_value, base),
        },
    }
}

impl AxisDescriptor {
    /// This axis together with a unit in which `fit_to_value` reads well.
    pub fn scaled_axis_unit(&self, fit_to_value: i64) -> (s: ScaledAxisDescriptor)
        ensures
            s.default_axis == *self,
            s.target == scaled_quantity(self.quantity, fit_to_value as int),
    {
        let target = match self.quantity {
            AxisQuantity::Duration { base } => {
                let b = base.scale();
                let unit = if below_thousand(fit_to_value, b, DurationUnit::Nanosecond.scale()) {
                    DurationUnit::Nanosecond
                } else if below_thousand(fit_to_value, b, DurationUnit::Microsecond.scale()) {
                    DurationUnit::Microsecond
                } else if below_thousand(fit_to_value, b, DurationUnit::Millisecond.scale()) {
                    DurationUnit::Millisecond
                } else if below_thousand(fit_to_value, b, DurationUnit::Second.scale()) {
                    DurationUnit::Second
                } else if below_thousand(fit_to_value, b, DurationUnit::Minute.scale()) {
                    DurationUnit::Minute
                } else {
                    DurationUnit::Hour
                };
                AxisQuantity::new_duration(unit)
            },
            AxisQuantity::SimpleSi { base } => {
                let b = base.scale();
                let prefix = if below_thousand(fit_to_value, b, SiPrefix::Nano.scale()) {
                    SiPrefix::Nano
                } else if below_thousand(fit_to_value, b, SiPrefix::Micro.scale()) {
                    SiPrefix::Micro
                } else if below_thousand(fit_to_value, b, SiPrefix::Milli.scale()) {
                    SiPrefix::Milli
                } else if below_thousand(fit_to_value, b, SiPrefix::Base.scale()) {
                    SiPrefix::Base
                } else if below_thousand(fit_to_value, b, SiPrefix::Kilo.scale()) {
                    SiPrefix::Kilo
                } else {
                    SiPrefix::Mega
                };
                AxisQuantity::new_si(prefix)
            },
        };
        ScaledAxisDescriptor { default_axis: *self, target }
    }
}

impl ScaledAxisDescriptor {
    /// The axis title: the label with the unit in brackets; for a plain
    /// count, the label alone.
    pub open spec fn spec_name(&self) -> Seq<char> {
        let label = self.default_axis.label@;
        match self.target {
            AxisQuantity::Duration { base } => label + " ["@ + base.spec_symbol() + "]"@,
            AxisQuantity::SimpleSi { base } => if base == SiPrefix::Base {
                label
            } else {
                label + " ["@ + base.spec_symbol() + "]"@
            },
        }
    }

    pub fn name(&self) -> (s: String)
        ensures
            s@ == self.spec_name(),
    {
        let mut s = self.default_axis.label.to_owned();
        match self.target {
            AxisQuantity::Duration { base } => {
                s.append(" [");
                s.append(base.symbol());
                s.append("]");
            },
            AxisQuantity::SimpleSi { base } => {
                if base == SiPrefix::Base {
                } else {
                    s.append(" [");
                    s.append(base.symbol());
                    s.append("]");
                }
            },
        }
        s
    }
}

/// The axis of the charted value itself, in nanoseconds.
pub open spec fn value_axis(v: ChartedValue) -> AxisDescriptor {
    AxisDescriptor {
        label: match v {
            ChartedValue::CallbackDuration => "Duration",
            ChartedValue::ActivationsDelay => "Delay",
            ChartedValue::PublicationsDelay => "Delay",
            ChartedValue::MessagesDelay => "Delay",
            ChartedValue::MessagesLatency => "Latency",
        },
        quantity: AxisQuantity::Duration { base: DurationUnit::Nanosecond },
    }
}

/// The axis counting samples of a histogram.
pub open spec fn count_axis(v: ChartedValue) -> AxisDescriptor {
    AxisDescriptor {
        label: match v {
            ChartedValue::CallbackDuration => "Samples",
            ChartedValue::ActivationsDelay => "Activations",
            ChartedValue::PublicationsDelay => "Publications",
            ChartedValue::MessagesDelay => "Messages",
            ChartedValue::MessagesLatency => "Samples",
        },
        quantity: AxisQuantity::SimpleSi { base: SiPrefix::Base },
    }
}

/// The axis numbering the samples of a scatter chart.
pub open spec fn index_axis(v: ChartedValue) -> AxisDescriptor {
    AxisDescriptor {
        label: match v {
            ChartedValue::CallbackDuration => "Nth Sample",
            ChartedValue::ActivationsDelay => "Nth Activation",
            ChartedValue::PublicationsDelay => "Nth Publication",
            ChartedValue::MessagesDelay => "Nth Message",
            ChartedValue::MessagesLatency => "Nth sample",
        },
        quantity: AxisQuantity::SimpleSi { base: SiPrefix::Base },
    }
}

/// A histogram shows the value along `x` and the counts along `y`; a scatter
/// chart numbers the samples along `x` and shows the value along `y`.
pub open spec fn spec_axis_descriptors(v: ChartedValue, variant: ChartVariants) -> AxisDescriptors {
    match variant {
        ChartVariants::Histogram(_) => AxisDescriptors { x: value_axis(v), y: count_axis(v) },
        ChartVariants::Scatter => AxisDescriptors { x: index_axis(v), y: value_axis(v) },
    }
}

/// The axes of a chart of `charted_value` in the form `chart_variant`.
pub fn resolve_axis_descriptors(charted_value: &ChartedValue, chart_variant: &ChartVariants) -> (d: AxisDescriptors)
    ensures
        d == spec_axis_descriptors(*charted_value, *chart_variant),
{
    let value_label = match charted_value {
        ChartedValue::CallbackDuration => "Duration",
        ChartedValue::ActivationsDelay => "Delay",
        ChartedValue::PublicationsDelay => "Delay",
        ChartedValue::MessagesDelay => "Delay",
        ChartedValue::MessagesLatency => "Latency",
    };
    let value = AxisDescriptor {
        label: value_label,
        quantity: AxisQuantity::new_duration(DurationUnit::Nanosecond),
    };
    match chart_variant {
        ChartVariants::Histogram(_) => {
            let count_label = match charted_value {
                ChartedValue::CallbackDuration => "Samples",
                ChartedValue::ActivationsDelay => "Activations",
                ChartedValue::PublicationsDelay => "Publications",
                ChartedValue::MessagesDelay => "Messages",
                ChartedValue::MessagesLatency => "Samples",
            };
            AxisDescriptors {
                x: value,
                y: AxisDescriptor { label: count_label, quantity: AxisQuantity::new_si(SiPrefix::Base) },
            }
        },
        ChartVariants::Scatter => {
            let index_label = match charted_value {
                ChartedValue::CallbackDuration => "Nth Sample",
                ChartedValue::ActivationsDelay => "Nth Activation",
                ChartedValue::PublicationsDelay => "Nth Publication",
                ChartedValue::MessagesDelay => "Nth Message",
                ChartedValue::MessagesLatency => "Nth sample",
            };
            AxisDescriptors {
                x: AxisDescriptor { label: index_label, quantity: AxisQuantity::new_si(SiPrefix::Base) },
                y: value,
            }
        },
    }
}

} // verus!
