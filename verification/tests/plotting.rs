use r2ta::argsv2::chart_args::{ChartVariants, ChartedValue, HistogramData as ChartHistogramData};
use r2ta::argsv2::extract_args::AnalysisProperty;
use r2ta::argsv2::plot_args::{HistogramData, PlotVariants};
use r2ta::binning::{alignment_in_range, count_bins, histogram_x_axis_alignment, sturges_bin_count};
use r2ta::charting;
use r2ta::charting::charts::histogram::{histogram_chart_fits, HistogramChart};
use r2ta::charting::charts::scatter::ScatterChart;
use r2ta::charting::charts::ChartableData;
use r2ta::charting::error::ChartConstructionError;
use r2ta::charting::ChartSpacing;
use r2ta::plotting::axis_descriptor::{
    resolve_axis_descriptors, AxisDescriptor, AxisQuantity, DurationUnit, SiPrefix,
};
use r2ta::plotting::plots::histogram::{histogram_plot_fits, HistogramPlot};
use r2ta::plotting::plots::scatter::ScatterPlot;
use r2ta::plotting::plots::{resolve_axis_range, PlottableData};
use r2ta::plotting::PlotSpacing;

fn duration_axis() -> AxisDescriptor {
    AxisDescriptor { label: "Delay", quantity: AxisQuantity::new_duration(DurationUnit::Nanosecond) }
}

#[test]
fn duration_unit_is_the_finest_below_a_thousand() {
    let a = duration_axis();
    let unit = |v: i64| match a.scaled_axis_unit(v).target {
        AxisQuantity::Duration { base } => base,
        _ => panic!("not a duration"),
    };
    assert_eq!(unit(0), DurationUnit::Nanosecond);
    assert_eq!(unit(999), DurationUnit::Nanosecond);
    assert_eq!(unit(1_000), DurationUnit::Microsecond);
    assert_eq!(unit(999_999), DurationUnit::Microsecond);
    assert_eq!(unit(1_000_000), DurationUnit::Millisecond);
    assert_eq!(unit(2_500_000_000), DurationUnit::Second);
    assert_eq!(unit(1_000_000_000_000), DurationUnit::Minute);
    assert_eq!(unit(60_000_000_000_000), DurationUnit::Hour);
    // A negative value reads in no unit: the last one is taken.
    assert_eq!(unit(-5), DurationUnit::Hour);
}

#[test]
fn si_prefix_is_the_finest_below_a_thousand() {
    let a = AxisDescriptor { label: "Samples", quantity: AxisQuantity::new_si(SiPrefix::Base, true) };
    let prefix = |v: i64| match a.scaled_axis_unit(v).target {
        AxisQuantity::SimpleSi { base, show_exponent } => {
            assert!(show_exponent);
            base
        }
        _ => panic!("not a count"),
    };
    // Counts given in units read below a thousand as units up to 999.
    assert_eq!(prefix(1), SiPrefix::Base);
    assert_eq!(prefix(999), SiPrefix::Base);
    assert_eq!(prefix(1_000), SiPrefix::Kilo);
    assert_eq!(prefix(5_000_000), SiPrefix::Mega);
    assert_eq!(prefix(-1), SiPrefix::Mega);
}

#[test]
fn axis_names() {
    let a = duration_axis();
    assert_eq!(a.scaled_axis_unit(2_000).name(), "Delay [μs]");
    let c = AxisDescriptor { label: "Callbacks", quantity: AxisQuantity::new_si(SiPrefix::Base, true) };
    assert_eq!(c.scaled_axis_unit(3).name(), "Callbacks");
    assert_eq!(c.scaled_axis_unit(3_000).name(), "Callbacks ×10³");
    let d = AxisDescriptor { label: "Count", quantity: AxisQuantity::new_si(SiPrefix::Base, false) };
    assert_eq!(d.scaled_axis_unit(3_000).name(), "Count [k]");
    let e = r2ta::charting::axis_descriptor::AxisDescriptor {
        label: "Latency",
        quantity: r2ta::charting::axis_descriptor::AxisQuantity::new_si(
            r2ta::charting::axis_descriptor::SiPrefix::Base,
        ),
    };
    assert_eq!(e.scaled_axis_unit(3_000_000).name(), "Latency [M]");
}

#[test]
fn plot_axes_by_form() {
    let h = resolve_axis_descriptors(AnalysisProperty::CallbackDuration, &PlotVariants::Histogram(HistogramData { bins: None }));
    assert_eq!(h.x.label, "Duration");
    assert_eq!(h.y.label, "Callbacks");
    let s = resolve_axis_descriptors(AnalysisProperty::MessageLatency, &PlotVariants::Scatter);
    assert_eq!(s.x.label, "Message #");
    assert_eq!(s.y.label, "Latency");
    let c = charting::axis_descriptor::resolve_axis_descriptors(
        &ChartedValue::ActivationsDelay,
        &ChartVariants::Scatter,
    );
    assert_eq!(c.x.label, "Nth Activation");
    assert_eq!(c.y.label, "Delay");
    let ch = charting::axis_descriptor::resolve_axis_descriptors(
        &ChartedValue::MessagesLatency,
        &ChartVariants::Histogram(ChartHistogramData { bins: Some(3) }),
    );
    assert_eq!(ch.y.label, "Samples");
}

#[test]
fn alignment_examples() {
    // All values equal: width one, four units on each side, not below zero.
    assert_eq!(histogram_x_axis_alignment(2, 2, 10), (1, (0, 6)));
    assert_eq!(histogram_x_axis_alignment(100, 100, 10), (1, (96, 104)));
    // 0..=100 over 10 bins: width 10, range a multiple of 40.
    assert_eq!(histogram_x_axis_alignment(0, 100, 10), (10, (0, 120)));
    // 13..=87 over 5 bins: 74 / 5 = 14.8 rounds up to 20.
    assert_eq!(histogram_x_axis_alignment(13, 87, 5), (20, (0, 160)));
    // 1000..=1300 over 3 bins: width 100, 1000..1300 widened to 1000..1400 evenly.
    assert_eq!(histogram_x_axis_alignment(1000, 1300, 3), (100, (950, 1350)));
    // A range smaller than the number of bins gets width one.
    assert_eq!(histogram_x_axis_alignment(5, 7, 10), (1, (4, 8)));
}

#[test]
fn sturges_rule() {
    assert_eq!(sturges_bin_count(0), 1);
    assert_eq!(sturges_bin_count(1), 1);
    assert_eq!(sturges_bin_count(2), 2);
    assert_eq!(sturges_bin_count(5), 4);
    assert_eq!(sturges_bin_count(8), 4);
    assert_eq!(sturges_bin_count(9), 5);
    assert_eq!(sturges_bin_count(1000), 11);
}

#[test]
fn histogram_plot_bins_the_samples() {
    let data = vec![0, 5, 10, 15, 20, 25, 30, 35, 40, 100];
    let axes = resolve_axis_descriptors(AnalysisProperty::MessageDelay, &PlotVariants::Histogram(HistogramData { bins: Some(10) }));
    let h = HistogramPlot::new(&HistogramData { bins: Some(10) }, PlottableData::I64(data), &axes);
    assert_eq!(h.bin_width(), 10);
    assert_eq!(h.x_range(), (0, 120));
    assert_eq!(h.counts(), &vec![2, 2, 2, 2, 1, 0, 0, 0, 0, 1]);
    assert_eq!(h.y_range(), (0, 2));
    let [x, y] = h.scale_axis();
    assert_eq!(x.default_axis.label, "Delay");
    assert!(matches!(x.target, AxisQuantity::Duration { base: DurationUnit::Nanosecond }));
    assert!(matches!(y.target, AxisQuantity::SimpleSi { base: SiPrefix::Base, .. }));
}

#[test]
fn histogram_plot_without_bins_uses_sturges() {
    let data = vec![3, 3, 3, 3, 3];
    let axes = resolve_axis_descriptors(AnalysisProperty::MessageDelay, &PlotVariants::Histogram(HistogramData { bins: Some(0) }));
    let h = HistogramPlot::new(&HistogramData { bins: Some(0) }, PlottableData::I64(data), &axes);
    assert_eq!(h.counts(), &vec![5, 0, 0, 0]);
    assert_eq!(h.x_range(), (0, 7));
    assert_eq!(h.bin_width(), 1);
}

#[test]
fn scatter_plots() {
    let axes = resolve_axis_descriptors(AnalysisProperty::CallbackDuration, &PlotVariants::Scatter);
    let p = ScatterPlot::new(PlottableData::I64(vec![7, -2, 30]), &axes);
    assert_eq!(p.x_range(), (0, 3));
    assert_eq!(p.y_range(), (-2, 30));
    assert_eq!(p.points(), &vec![(0, 7), (1, -2), (2, 30)]);
    let c_axes = charting::axis_descriptor::resolve_axis_descriptors(&ChartedValue::CallbackDuration, &ChartVariants::Scatter);
    let c = ScatterChart::new(ChartableData::I64(vec![5]), &c_axes);
    assert_eq!(c.y_range(), (5, 5));
    assert_eq!(resolve_axis_range(&[4, 9, -1, 3]), (-1, 9));
}

#[test]
fn plot_spacing_by_size() {
    let small = PlotSpacing::from((300, 900));
    assert_eq!(small.desc_size, 14);
    assert_eq!(small.label_margin, [32, 0, 0, 32]);
    let medium = PlotSpacing::from((640, 480));
    assert_eq!(medium.desc_size, 20);
    let large = PlotSpacing::from((800, 600));
    assert_eq!(large.margin, [32; 4]);
    assert_eq!(large.x_label_size, 20);
}

#[test]
fn chart_spacing_by_size() {
    assert_eq!(ChartSpacing::try_from((640, 480)).ok().map(|s| s.desc_size), Some(20));
    assert_eq!(ChartSpacing::try_from((1024, 768)).ok().map(|s| s.desc_size), Some(32));
    assert!(matches!(ChartSpacing::try_from((1000, 400)), Err(ChartConstructionError::ChartSizeRatio(1000, 400))));
    assert!(matches!(ChartSpacing::try_from((300, 300)), Err(ChartConstructionError::ChartSizeTooSmall(300, 300))));
    assert!(matches!(ChartSpacing::try_from((0, 0)), Err(ChartConstructionError::ChartSizeRatio(0, 0))));
    // A ratio of exactly one half is accepted, exactly two is not.
    assert!(ChartSpacing::try_from((400, 800)).is_ok());
    assert!(ChartSpacing::try_from((1600, 800)).is_err());
}

#[test]
fn histogram_chart_keeps_the_bins_that_hold_samples() {
    let data = vec![0, 5, 10, 15, 20, 25, 30, 35, 40, 100];
    let axes = charting::axis_descriptor::resolve_axis_descriptors(
        &ChartedValue::MessagesLatency,
        &ChartVariants::Histogram(ChartHistogramData { bins: Some(10) }),
    );
    let h = HistogramChart::new(&ChartHistogramData { bins: Some(10) }, &ChartableData::I64(data), &axes);
    assert_eq!(h.bin_width(), 10);
    assert_eq!(h.x_range(), (0, 120));
    assert_eq!(h.bins(), &vec![(0, 2), (1, 2), (2, 2), (3, 2), (4, 1), (9, 1)]);
    assert_eq!(h.y_range(), (0, 2));
}

#[test]
fn histograms_fit_only_where_the_alignment_does() {
    assert!(histogram_plot_fits(Some(10), &vec![1, 2, 3]));
    // An empty series is plotted over the range 0..=0.
    assert!(histogram_plot_fits(Some(10), &vec![]));
    assert!(histogram_plot_fits(None, &vec![5]));
    assert!(histogram_chart_fits(None, &vec![5]));
    assert!(!histogram_chart_fits(Some(4), &vec![]));
    assert!(!histogram_chart_fits(Some(0), &vec![1, 2]));
    assert!(!histogram_plot_fits(Some(10), &vec![i64::MIN, i64::MAX]));
    assert!(alignment_in_range(0, 100, 10));
    assert!(!alignment_in_range(0, 100, 0));
    assert!(!alignment_in_range(7, 3, 4));
    assert!(!alignment_in_range(i64::MIN, i64::MAX, 3));
}

#[test]
fn samples_are_counted_per_bin() {
    // Bins of width 10 from 0; the last bin takes what lies beyond it.
    assert_eq!(count_bins(&vec![0, 9, 10, 25, 99], 0, 10, 3), vec![2, 1, 2]);
    assert_eq!(count_bins(&vec![], 0, 1, 2), vec![0, 0]);
}
