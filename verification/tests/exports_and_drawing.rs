use r2ta::analysis::EventAnalysis;
use r2ta::argsv2::extract_args::AnalysisProperty;
use r2ta::assoc::AssocMap;
use r2ta::dependency_graph::{
    CallbackInstance, CallbackTrigger, Context, EdgeType, Event, FullEvent, Node, NodeType,
    PublicationMessage, SubscriptionMessage,
};
use r2ta::dot_text::{can_label, dot_text};
use r2ta::dot_graph::{
    can_draw, get_node_name_and_tooltip, get_node_name_from_graph_node, DotGraph, EdgeWeightStats,
};
use r2ta::exports::NodePair;
use r2ta::graph::DependencyGraph;
use r2ta::model::{
    CallbackCaller, CallbackEntity, RosModel, ServiceEntity, TimerEntity, TopicEntity,
};

fn ev(time: i64, vtid: u32, event: Event) -> FullEvent {
    FullEvent { time, context: Context { vtid, host: 1 }, event }
}

fn feed(g: &mut DependencyGraph, e: FullEvent) {
    assert!(g.accepts_event(&e));
    g.process_event(&e);
}

/// Node 1 ("/talker") has timer 30, its callback 20 and publisher 9;
/// node 2 ("/listener") has subscriber 11 and its callback 21, and service
/// 50 with callback 22.
fn model() -> RosModel {
    let mut publishers = AssocMap::new();
    publishers.insert(9, TopicEntity { topic: "/chatter".to_string(), node: Some(1) });
    let mut subscribers = AssocMap::new();
    subscribers.insert(11, TopicEntity { topic: "/chatter".to_string(), node: Some(2) });
    let mut services = AssocMap::new();
    services.insert(50, ServiceEntity { name: "/reset".to_string(), node: Some(2) });
    let mut timers = AssocMap::new();
    timers.insert(30, TimerEntity { period: Some(500_000_000), period_text: "500 ms".to_string(), node: Some(1) });
    let mut callbacks = AssocMap::new();
    callbacks.insert(
        20,
        CallbackEntity {
            caller: Some(CallbackCaller { text: "Timer(500ms)".to_string(), subscription_topic: None }),
            node: Some(1),
        },
    );
    callbacks.insert(
        21,
        CallbackEntity {
            caller: Some(CallbackCaller {
                text: "Subscription(/chatter)".to_string(),
                subscription_topic: Some("/chatter".to_string()),
            }),
            node: Some(2),
        },
    );
    callbacks.insert(
        22,
        CallbackEntity {
            caller: Some(CallbackCaller { text: "Service(/reset)".to_string(), subscription_topic: None }),
            node: Some(2),
        },
    );
    let mut nodes = AssocMap::new();
    nodes.insert(1, "/talker".to_string());
    nodes.insert(2, "/listener".to_string());
    RosModel { publishers, subscribers, services, timers, callbacks, nodes, unknown: "?".to_string() }
}

fn graph() -> DependencyGraph {
    let mut g = DependencyGraph::new();
    feed(&mut g, ev(0, 1, Event::SpinWake { node: 1 }));
    feed(&mut g, ev(0, 2, Event::SpinWake { node: 2 }));
    let timer = CallbackInstance {
        id: 1,
        callback: 20,
        start_time: 100,
        trigger: CallbackTrigger::Timer { timer: 30, node: Some(1) },
    };
    feed(&mut g, ev(100, 1, Event::CallbackStart(timer)));
    feed(&mut g, ev(130, 1, Event::RmwPublish { publisher: 9 }));
    feed(&mut g, ev(160, 1, Event::CallbackEnd(timer)));
    let msg = SubscriptionMessage {
        subscriber: 11,
        rmw_receive_time: Some(180),
        publication: Some(PublicationMessage { publisher: 9, publication_time: Some(130) }),
    };
    feed(&mut g, ev(200, 2, Event::RmwTake { taken: true, message: msg }));
    let sub = CallbackInstance {
        id: 2,
        callback: 21,
        start_time: 210,
        trigger: CallbackTrigger::SubscriptionMessage(msg),
    };
    feed(&mut g, ev(210, 2, Event::CallbackStart(sub)));
    feed(&mut g, ev(260, 2, Event::CallbackEnd(sub)));
    let srv = CallbackInstance {
        id: 3,
        callback: 22,
        start_time: 300,
        trigger: CallbackTrigger::Service { service: 50, node: Some(2) },
    };
    feed(&mut g, ev(300, 2, Event::CallbackStart(srv)));
    feed(&mut g, ev(320, 2, Event::CallbackEnd(srv)));
    g
}

#[test]
fn drawing_numbers_vertices_and_groups_them_by_ros_node() {
    let g = graph();
    let m = model();
    let d = DotGraph::new(&g, &m, true, false);
    let ids = d.node_ids();
    // publishers, subscribers, timers, callbacks, then services
    assert_eq!(ids.len(), 7);
    assert_eq!(ids.get(&Node::Publisher(9)), Some(&1));
    assert_eq!(ids.get(&Node::Subscriber(11)), Some(&2));
    assert_eq!(ids.get(&Node::Timer(30)), Some(&3));
    assert_eq!(ids.get(&Node::Callback(20)), Some(&4));
    assert_eq!(ids.get(&Node::Callback(21)), Some(&5));
    assert_eq!(ids.get(&Node::Callback(22)), Some(&6));
    assert_eq!(ids.get(&Node::Service(50)), Some(&7));
    assert_eq!(d.ros_nodes(), &vec![1, 2]);
    assert_eq!(d.ros_node_to_id().get(&2), Some(&1));
    assert!(d.color());
    assert!(!d.thickness());
}

#[test]
fn drawing_processes_edges_in_order() {
    let g = graph();
    let m = model();
    let d = DotGraph::new(&g, &m, false, false);
    let edges = d.edges();
    // timer->callback, callback->publisher, publisher->subscriber,
    // subscriber->callback, service->callback
    assert_eq!(edges.len(), 5);
    assert_eq!(edges[0].edge_type, EdgeType::TimerCallbackInvocation);
    assert_eq!((edges[0].source, edges[0].target), (3, 4));
    assert_eq!(edges[0].latencies.values(), &vec![100]);
    assert_eq!(edges[0].node_index, Some(0));
    assert_eq!(edges[1].edge_type, EdgeType::PublicationInCallback);
    assert_eq!(edges[2].edge_type, EdgeType::PublisherSubscriberCommunication);
    assert_eq!(edges[2].node_index, None);
    assert_eq!(edges[3].edge_type, EdgeType::SubscriberCallbackInvocation);
    assert_eq!(edges[3].node_index, Some(1));
    assert_eq!(edges[4].edge_type, EdgeType::ServiceCallbackInvocation);
    assert_eq!(d.edge_ids().get(&NodePair { source: 3, target: 4 }), Some(&1));
    assert_eq!(d.edge_ids().get(&NodePair { source: 7, target: 6 }), Some(&5));
    // The one publisher-to-subscriber edge has latency 70.
    assert_eq!(d.pub_sub_latency_range(), Some((70, 70)));
    let stats = d.ros_nodes_min_max_latency_stats();
    let talker = stats.get(&1).unwrap();
    assert_eq!(talker.range_for_type(EdgeType::TimerCallbackInvocation), Some((100, 100)));
    assert_eq!(talker.range_for_type(EdgeType::PublicationInCallback), Some((30, 30)));
    assert_eq!(talker.range_for_type(EdgeType::SubscriberCallbackInvocation), None);
    assert_eq!(talker.range_for_type(EdgeType::PublisherSubscriberCommunication), None);
}

#[test]
fn edges_are_scaled_to_the_range_of_their_kind() {
    let g = graph();
    let m = model();
    let d = DotGraph::new(&g, &m, false, true);
    assert_eq!(d.edge_scale_range(0), Some((100, 100)));
    assert_eq!(d.edge_scale_range(1), Some((30, 30)));
    assert_eq!(d.edge_scale_range(2), Some((70, 70)));
    let sub = d.edges()[3].latencies.median().unwrap();
    assert_eq!(d.edge_scale_range(3), Some((sub, sub)));
}

#[test]
fn edge_weight_stats_widen_ranges() {
    let mut s = EdgeWeightStats::default();
    assert_eq!(s.range_for_type(EdgeType::SubscriberCallbackInvocation), None);
    s.update_subscriber_to_callback(40);
    s.update_subscriber_to_callback(10);
    s.update_subscriber_to_callback(25);
    assert_eq!(s.range_for_type(EdgeType::SubscriberCallbackInvocation), Some((10, 40)));
    s.update_service_to_callback(5);
    s.update_timer_to_callback(6);
    s.update_callback_to_publisher(7);
    assert_eq!(s.range_for_type(EdgeType::ServiceCallbackInvocation), Some((5, 5)));
    assert_eq!(s.range_for_type(EdgeType::TimerCallbackInvocation), Some((6, 6)));
    assert_eq!(s.range_for_type(EdgeType::PublicationInCallback), Some((7, 7)));
    assert_eq!(EdgeWeightStats::validate_range((i64::MAX, i64::MIN)), None);
    assert_eq!(EdgeWeightStats::validate_range((3, 4)), Some((3, 4)));
}

#[test]
fn edge_weight_ranges_are_the_extremes_of_a_run_of_updates() {
    let mut s = EdgeWeightStats::default();
    for l in [300, -20, i64::MAX, 7] {
        s.update_timer_to_callback(l);
    }
    assert_eq!(s.range_for_type(EdgeType::TimerCallbackInvocation), Some((-20, i64::MAX)));
    assert_eq!(s.range_for_type(EdgeType::SubscriberCallbackInvocation), None);
    assert_eq!(s.range_for_type(EdgeType::ServiceCallbackInvocation), None);
    assert_eq!(s.range_for_type(EdgeType::PublicationInCallback), None);
    s.update(EdgeType::PublisherSubscriberCommunication, 5);
    assert_eq!(s.range_for_type(EdgeType::PublisherSubscriberCommunication), None);
    let mut one = EdgeWeightStats::default();
    one.update_callback_to_publisher(i64::MIN);
    assert_eq!(one.range_for_type(EdgeType::PublicationInCallback), Some((i64::MIN, i64::MIN)));
}

#[test]
fn exports_name_each_series() {
    let g = graph();
    let m = model();
    let d = DotGraph::new(&g, &m, false, false);
    let ids = d.node_ids();

    let activations = g.activation_delays(&m, ids);
    assert_eq!(activations.len(), 4);
    assert_eq!(activations[0].id, 3);
    assert_eq!(activations[0].name.interface, "Timer(500000000)");
    assert_eq!(activations[0].name.node, "/talker");
    assert_eq!(activations[1].name.interface, "Callback(Timer(500ms))");
    assert_eq!(activations[2].name.interface, "Callback(Subscriber(\"/chatter\"))");
    assert_eq!(activations[2].name.node, "/listener");

    let publications = g.publication_delays(&m, ids);
    assert_eq!(publications.len(), 1);
    assert_eq!(publications[0].id, 1);
    assert_eq!(publications[0].name.interface, "Publisher(/chatter)");
    assert_eq!(publications[0].publication_delays, Vec::<i64>::new());

    let messages = g.message_delays(&m, ids);
    assert_eq!(messages[0].name.interface, "Subscriber(/chatter)");

    let durations = g.callback_durations(&m, ids);
    assert_eq!(durations.len(), 3);
    assert_eq!(durations[0].name.interface, "Callback(Timer(500ms))");
    assert_eq!(durations[0].callback_durations, vec![60]);
    assert_eq!(durations[1].name.interface, "Callback(Subscription(/chatter))");
    assert_eq!(durations[1].callback_durations, vec![50]);

    let latencies = g.message_latencies(&m, ids, d.edge_ids());
    assert_eq!(latencies.len(), 5);
    assert_eq!(latencies[0].id, 1);
    assert_eq!(latencies[0].name.topic, "500000000");
    assert_eq!(latencies[1].name.topic, "/chatter");
    assert_eq!(latencies[2].name.source_node, "/talker");
    assert_eq!(latencies[2].name.destination_node, "/listener");
    assert_eq!(latencies[2].messages_latencies, vec![70]);
    assert_eq!(latencies[4].name.topic, "/reset");

    let overview = g.node_overview(ids);
    assert_eq!(overview.len(), 6);
    assert_eq!(overview[0].element_type, NodeType::Publisher);
    assert_eq!(overview[0].analyses, vec![AnalysisProperty::PublicationDelay]);
    assert_eq!(overview[2].element_type, NodeType::Callback);
    assert_eq!(
        overview[2].analyses,
        vec![AnalysisProperty::ActivationDelay, AnalysisProperty::CallbackDuration]
    );
    assert_eq!(overview[5].element_type, NodeType::Timer);
    assert_eq!(overview[5].id, 3);
}

#[test]
fn unknown_node_names() {
    let g = graph();
    let mut m = model();
    m.nodes = AssocMap::new();
    let d = DotGraph::new(&g, &m, false, false);
    let latencies = g.message_latencies(&m, d.node_ids(), d.edge_ids());
    assert_eq!(latencies[0].name.source_node, "?");
    let activations = g.activation_delays(&m, d.node_ids());
    assert_eq!(activations[0].name.node, "");
}

#[test]
fn vertices_are_labelled_by_kind_and_what_they_carry() {
    let m = model();
    let listener = "/listener".to_string();
    let (name, tooltip) = get_node_name_and_tooltip(&m, Node::Publisher(9), &listener);
    assert_eq!(name, "Publisher\n/chatter");
    assert_eq!(tooltip, "");
    let (name, _) = get_node_name_and_tooltip(&m, Node::Subscriber(11), &listener);
    assert_eq!(name, "Subscriber\n/chatter");
    let (name, _) = get_node_name_and_tooltip(&m, Node::Timer(30), &listener);
    assert_eq!(name, "Timer\n500 ms");
    let (name, _) = get_node_name_and_tooltip(&m, Node::Callback(21), &listener);
    assert_eq!(name, "Callback\nSubscription(/chatter)");
    let (name, tooltip) = get_node_name_and_tooltip(&m, Node::Service(50), &listener);
    assert_eq!(name, "Service\n/reset");
    assert_eq!(tooltip, "Node: /listener\nSee callback for details");
    assert_eq!(get_node_name_from_graph_node(&m, Node::Timer(30)), "/talker");
    assert_eq!(get_node_name_from_graph_node(&m, Node::Service(50)), "/listener");
}

#[test]
fn clusters_hold_the_vertices_of_each_ros_node() {
    let g = graph();
    let m = model();
    let d = DotGraph::new(&g, &m, false, false);
    // node 1 (/talker): publisher 9, timer 30, callback 20;
    // node 2 (/listener): subscriber 11, callbacks 21 and 22, service 50
    assert_eq!(d.clusters(), vec![vec![1, 3, 4], vec![2, 5, 6, 7]]);
}

#[test]
fn drawing_and_export_need_a_model_of_every_vertex() {
    let g = graph();
    let m = model();
    assert!(can_draw(&g, &m));
    let d = DotGraph::new(&g, &m, false, false);
    assert!(g.elements_exportable(&m, d.node_ids()));
    assert!(g.edges_exportable(&m, d.node_ids(), d.edge_ids()));

    let mut partial = model();
    partial.publishers = AssocMap::new();
    assert!(!can_draw(&g, &partial));
    assert!(!g.elements_exportable(&partial, d.node_ids()));
    assert!(!g.edges_exportable(&m, &AssocMap::new(), d.edge_ids()));
}

#[test]
fn dot_text_writes_vertices_edges_and_clusters() {
    let g = graph();
    let m = model();
    let d = DotGraph::new(&g, &m, false, true);
    assert!(can_label(&d, &m));
    let pens: Vec<Option<String>> = (0..d.edges().len())
        .map(|i| if i == 0 { Some("1.5".to_string()) } else { None })
        .collect();
    let text = dot_text(&d, &m, &pens);
    let lines: Vec<&str> = text.lines().collect();
    assert_eq!(lines[0], "digraph {");
    assert_eq!(lines[1], "  rankdir=\"LR\";");
    assert_eq!(lines[2], "  n1 [label=\"Publisher\\n/chatter\", shape=\"ellipse\", tooltip=\"\"];");
    assert_eq!(lines[4], "  n3 [label=\"Timer\\n500 ms\", shape=\"ellipse\", tooltip=\"\"];");
    assert_eq!(
        lines[8],
        "  n7 [label=\"Service\\n/reset\", shape=\"ellipse\", tooltip=\"Node: /listener\\nSee callback for details\"];"
    );
    assert_eq!(
        lines[9],
        "  n3 -> n4 [tooltip=\"Latency:\\nmin: 100 ns\\nmedian: 100 ns\\nmax: 100 ns\", penwidth=\"1.5\"];"
    );
    assert_eq!(
        lines[11],
        "  n1 -> n2 [tooltip=\"Latency:\\nmin: 70 ns\\nmedian: 70 ns\\nmax: 70 ns\"];"
    );
    assert_eq!(lines[14], "  subgraph cluster_0 {");
    assert_eq!(lines[15], "    label=\"/talker\";");
    assert_eq!(lines[16], "    n1;");
    assert_eq!(lines[19], "  }");
    assert_eq!(lines[20], "  subgraph cluster_1 {");
    assert_eq!(lines[lines.len() - 1], "}");
    assert_eq!(lines.len(), 28);
    assert!(text.ends_with("}\n"));

    let mut unknown_period = model();
    unknown_period.timers = AssocMap::new();
    unknown_period.timers.insert(30, TimerEntity { period: None, period_text: String::new(), node: Some(1) });
    assert!(!can_label(&d, &unknown_period));
}
