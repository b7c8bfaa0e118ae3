use r2ta::analyses::{AnalysisKind, AnalysisSelection, Analyses};
use r2ta::argsv2::chart_args::{
    ChartOutputFormat, ChartRequest, ChartVariants, ChartedValue, HistogramData,
    OutputFormatError,
};
use r2ta::argsv2::extract_args::{AnalysisProperty, ExtractArgs, ExtractContentArgs, ExtractPropertyArgs};
use r2ta::argsv2::plot_args::PlotOutputFormat;
use r2ta::argsv2::TracerCommand;
use r2ta::decimal::decimal_string;
use r2ta::exports::{ActivationDelayExport, MessageLatencyExport, RosChannelCompleteName, RosInterfaceCompleteName};
use r2ta::message::{BtMessageConst, BtMessageConstCast, BtMessageType};
use r2ta::sql_store::{
    activation_delay_schema, decode_samples, encode_samples, message_latency_schema,
    metadata_schema, SampleCodingError, TableColumn,
};
use r2ta::statistics::Sorted;

#[test]
fn output_formats() {
    assert_eq!(PlotOutputFormat::try_from("svg").ok(), Some(PlotOutputFormat::Svg));
    assert_eq!(PlotOutputFormat::try_from("png").ok(), Some(PlotOutputFormat::Png));
    match ChartOutputFormat::try_from("jpg") {
        Err(OutputFormatError::UnsupportedFormat(s)) => assert_eq!(s, "jpg"),
        _ => panic!("jpg accepted"),
    }
    assert_eq!(ChartOutputFormat::default(), ChartOutputFormat::Svg);
}

#[test]
fn chart_names() {
    let r = ChartRequest {
        quantity: ChartedValue::from(AnalysisProperty::PublicationDelay),
        size: (800, 600),
        plot: ChartVariants::Histogram(HistogramData { bins: Some(25) }),
    };
    assert_eq!(r.name_descriptor(), "publication_delay_histogram_25_800x600");
    let s = ChartRequest { quantity: ChartedValue::MessagesLatency, size: (1024, 768), plot: ChartVariants::Scatter };
    assert_eq!(s.name_descriptor(), "latency_scatter_1024x768");
    let n = ChartRequest {
        quantity: ChartedValue::CallbackDuration,
        size: (10, 0),
        plot: ChartVariants::Histogram(HistogramData { bins: None }),
    };
    assert_eq!(n.name_descriptor(), "execution_timing_histogram_0_10x0");
}

#[test]
fn extract_arguments() {
    let p = ExtractPropertyArgs::new(AnalysisProperty::MessageLatency, 42);
    assert_eq!(p.element_id(), 42);
    assert_eq!(*p.property(), AnalysisProperty::MessageLatency);
    let a = ExtractArgs::new(None, Some("out.csv".to_string()), ExtractContentArgs::Property(p));
    assert_eq!(a.output_path(), Some(&"out.csv".to_string()));
    assert!(a.input().is_none());
    assert!(matches!(a.content(), ExtractContentArgs::Property(_)));
    assert_eq!(TracerCommand::Viewer.name(), "viewer");
    assert_eq!(AnalysisProperty::MessageDelay.description(), "Delay between");
}

#[test]
fn decimal_notation() {
    assert_eq!(decimal_string(0), "0");
    assert_eq!(decimal_string(1234567890), "1234567890");
    assert_eq!(decimal_string(u64::MAX), "18446744073709551615");
}

#[test]
fn sql_statements() {
    let s = message_latency_schema();
    assert_eq!(
        s.create_table_statement(),
        "CREATE TABLE IF NOT EXISTS message_latency (id INT PRIMARY KEY, source_node TEXT, destination_node TEXT, topic TEXT, latencies BLOB)"
    );
    assert_eq!(
        s.insert_statement(),
        "INSERT INTO message_latency (id, source_node, destination_node, topic, latencies) VALUES (?1, ?2, ?3, ?4, ?5)"
    );
    assert_eq!(
        activation_delay_schema().select_by_id_statement(),
        "SELECT id, node, interface, delays FROM activation_delay WHERE id = ?1"
    );
    assert_eq!(metadata_schema().insert_statement(), "INSERT INTO metadata (id, version) VALUES (?1, ?2)");
    let c = TableColumn::new("id", "INT");
    assert_eq!((c.name(), c.constraints()), ("id", "INT"));
}

#[test]
fn samples_round_trip() {
    let samples = vec![0, -1, 1, i64::MAX, i64::MIN, 300];
    let bytes = encode_samples(&samples).unwrap();
    assert_eq!(bytes[0], 6);
    assert_eq!(decode_samples(&bytes).unwrap(), samples);
    assert_eq!(encode_samples(&vec![1, -1]).unwrap(), vec![2, 2, 1]);
    assert_eq!(decode_samples(&vec![5, 1]), Err(SampleCodingError::Decode));
}

#[test]
fn export_rows_round_trip() {
    let e = ActivationDelayExport {
        id: 4,
        name: RosInterfaceCompleteName { interface: "Timer(1)".to_string(), node: "/n".to_string() },
        activation_delays: vec![10, 20],
    };
    let row = e.to_row().unwrap();
    assert_eq!(row.id, 4);
    let back = ActivationDelayExport::try_from_row(&row).unwrap();
    assert_eq!(back.id, 4);
    assert_eq!(back.name.interface, "Timer(1)");
    assert_eq!(back.activation_delays, vec![10, 20]);

    let l = MessageLatencyExport {
        id: 2,
        name: RosChannelCompleteName {
            source_node: "/a".to_string(),
            destination_node: "/b".to_string(),
            topic: "/t".to_string(),
        },
        messages_latencies: vec![7],
    };
    let row = l.to_row().unwrap();
    let back = MessageLatencyExport::from_row(&row);
    assert_eq!(back.name.topic, "/t");
    assert_eq!(back.messages_latencies, vec![7]);
}

#[test]
fn sorted_and_median() {
    let s = Sorted::from_unsorted(&vec![5, 1, 4, 2, 3, 3]);
    assert_eq!(s.values(), &vec![1, 2, 3, 3, 4, 5]);
    assert_eq!(s.median(), Some(3));
    assert_eq!(Sorted::from_unsorted(&vec![9, 1]).median(), Some(9));
    assert_eq!(Sorted::from_unsorted(&vec![]).median(), None);
}

#[test]
fn message_classification() {
    let m = BtMessageConst::new(BtMessageType::Event);
    assert_eq!(m.get_type(), BtMessageType::Event);
    assert!(matches!(m.cast(), BtMessageConstCast::Event(_)));
    let e = BtMessageConst::new(BtMessageType::Event).into_event_msg();
    assert_eq!(e.0.get_type(), BtMessageType::Event);
    assert_eq!(BtMessageType::from(4), BtMessageType::Event);
    assert_eq!(BtMessageType::from(128), BtMessageType::MessageIteratorInactivity);
    let p = BtMessageConst::new(BtMessageType::PacketEnd);
    assert!(matches!(p.cast(), BtMessageConstCast::PacketEnd(_)));
}

#[test]
fn analyses_selection() {
    let mut a = Analyses::default();
    assert!(a.all_as_mut().is_empty());
    let sel = AnalysisSelection {
        message_latency: false,
        callback_duration: false,
        utilization: true,
        real_utilization: false,
        callback_dependency: false,
        callback_publications: true,
        message_take_to_callback_latency: false,
        dependency_graph: true,
        spin_duration: true,
    };
    a.add_analyses_from_args(&sel);
    assert_eq!(
        a.all_as_mut(),
        vec![
            AnalysisKind::CallbackDuration,
            AnalysisKind::CallbackDependency,
            AnalysisKind::DependencyGraph,
            AnalysisKind::SpinDuration
        ]
    );
    assert!(a.dependency_graph().is_some());
}

#[test]
fn analyze_command_hands_over_its_selection() {
    let sel = AnalysisSelection {
        message_latency: true,
        callback_duration: false,
        utilization: false,
        real_utilization: false,
        callback_dependency: false,
        callback_publications: false,
        message_take_to_callback_latency: false,
        dependency_graph: true,
        spin_duration: false,
    };
    let cmd = TracerCommand::Analyze(Box::new(sel));
    assert_eq!(cmd.name(), "analyze");
    assert_eq!(cmd.into_analysis_args(), sel);
    assert_eq!(TracerCommand::Viewer.name(), "viewer");
}
