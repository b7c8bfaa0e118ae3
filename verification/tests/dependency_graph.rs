use r2ta::analysis::EventAnalysis;
use r2ta::assoc::AssocMap;
use r2ta::dependency_graph::{
    CallbackInstance, CallbackTrigger, Context, Edge, EdgeType, Event, FullEvent, Node,
    PublicationMessage, SubscriptionMessage, LATENCY_INVALID,
};
use r2ta::graph::DependencyGraph;

fn ctx(vtid: u32) -> Context {
    Context { vtid, host: 7 }
}

fn ev(time: i64, vtid: u32, event: Event) -> FullEvent {
    FullEvent { time, context: ctx(vtid), event }
}

fn feed(g: &mut DependencyGraph, e: FullEvent) {
    assert!(g.accepts_event(&e), "event refused: {:?}", e);
    g.process_event(&e);
}

fn timer_instance(id: u64, callback: u64, start: i64, timer: u64, node: u64) -> CallbackInstance {
    CallbackInstance {
        id,
        callback,
        start_time: start,
        trigger: CallbackTrigger::Timer { timer, node: Some(node) },
    }
}

#[test]
fn new_graph_is_empty() {
    let g = DependencyGraph::new();
    assert_eq!(g.edges_table().len(), 0);
    assert_eq!(g.publishers_table().len(), 0);
    assert_eq!(g.callbacks_table().len(), 0);
    assert_eq!(g.ros_nodes().len(), 0);
}

#[test]
fn ros_nodes_are_recorded_in_order() {
    let mut g = DependencyGraph::new();
    feed(&mut g, ev(1, 1, Event::RclNodeInit { node: 5 }));
    feed(&mut g, ev(2, 1, Event::RclNodeInit { node: 3 }));
    assert_eq!(g.ros_nodes(), &vec![5, 3]);
}

#[test]
fn consecutive_publications_record_their_delay() {
    let mut g = DependencyGraph::new();
    feed(&mut g, ev(100, 1, Event::RmwPublish { publisher: 9 }));
    feed(&mut g, ev(250, 1, Event::RmwPublish { publisher: 9 }));
    feed(&mut g, ev(400, 1, Event::RmwPublish { publisher: 9 }));
    let publishers = g.publishers_table();
    assert_eq!(publishers.len(), 1);
    assert_eq!(publishers.key_at(0), 9);
    assert_eq!(publishers.value_at(0).delays(), vec![150, 150]);
    assert_eq!(publishers.value_at(0).last(), Some(400));
    // No callback runs on the thread, so no edge appears.
    assert_eq!(g.edges_table().len(), 0);
}

#[test]
fn callback_start_and_end_record_duration_and_timer_latency() {
    let mut g = DependencyGraph::new();
    feed(&mut g, ev(1_000, 1, Event::SpinWake { node: 4 }));
    let inst = timer_instance(1, 20, 1_300, 30, 4);
    feed(&mut g, ev(1_300, 1, Event::CallbackStart(inst)));
    feed(&mut g, ev(1_800, 1, Event::CallbackEnd(inst)));

    let callbacks = g.callbacks_table();
    assert_eq!(callbacks.len(), 1);
    assert_eq!(callbacks.key_at(0), 20);
    assert_eq!(callbacks.value_at(0).durations(), vec![500]);
    assert_eq!(callbacks.value_at(0).activation_delays(), Vec::<i64>::new());

    // The timer is activated with the callback.
    let timers = g.timers_table();
    assert_eq!(timers.len(), 1);
    assert_eq!(timers.key_at(0), 30);
    assert_eq!(timers.value_at(0).last(), Some(1_300));

    // The timer edge latency is the time since the node's last wake-up.
    let edges = g.edges_table();
    assert_eq!(edges.len(), 1);
    assert_eq!(edges.key_at(0), Edge::TimerCallbackInvocation(30, 20));
    assert_eq!(edges.value_at(0).latencies(), vec![300]);
}

#[test]
fn timer_latency_without_wake_up_is_invalid() {
    let mut g = DependencyGraph::new();
    let inst = timer_instance(1, 20, 50, 30, 4);
    feed(&mut g, ev(50, 1, Event::CallbackStart(inst)));
    let edges = g.edges_table();
    assert_eq!(edges.value_at(0).latencies(), vec![LATENCY_INVALID]);
}

#[test]
fn two_starts_of_a_callback_record_the_activation_delay() {
    let mut g = DependencyGraph::new();
    let a = timer_instance(1, 20, 100, 30, 4);
    let b = timer_instance(2, 20, 350, 30, 4);
    feed(&mut g, ev(100, 1, Event::CallbackStart(a)));
    feed(&mut g, ev(200, 1, Event::CallbackEnd(a)));
    feed(&mut g, ev(350, 1, Event::CallbackStart(b)));
    feed(&mut g, ev(400, 1, Event::CallbackEnd(b)));
    let callbacks = g.callbacks_table();
    assert_eq!(callbacks.value_at(0).activation_delays(), vec![250]);
    assert_eq!(callbacks.value_at(0).durations(), vec![100, 50]);
    let timers = g.timers_table();
    assert_eq!(timers.value_at(0).delays(), vec![250]);
    let edges = g.edges_table();
    assert_eq!(edges.value_at(0).activation_delays(), vec![250]);
    assert_eq!(edges.value_at(0).latencies().len(), 2);
}

#[test]
fn publication_inside_a_callback_links_publisher_and_callback() {
    let mut g = DependencyGraph::new();
    let inst = timer_instance(1, 20, 1_000, 30, 4);
    feed(&mut g, ev(1_000, 3, Event::CallbackStart(inst)));
    feed(&mut g, ev(1_040, 3, Event::RmwPublish { publisher: 9 }));
    // Another thread publishes outside any callback.
    feed(&mut g, ev(1_050, 4, Event::RmwPublish { publisher: 8 }));
    let edges = g.edges_table();
    assert_eq!(edges.len(), 2);
    assert_eq!(edges.key_at(1), Edge::PublicationInCallback(9, 20));
    assert_eq!(edges.value_at(1).latencies(), vec![40]);
    assert_eq!(Edge::PublicationInCallback(9, 20).source(), Node::Callback(20));
    assert_eq!(Edge::PublicationInCallback(9, 20).target(), Node::Publisher(9));
    assert_eq!(Edge::PublicationInCallback(9, 20).as_type(), EdgeType::PublicationInCallback);
}

#[test]
fn taken_message_links_publisher_and_subscriber() {
    let mut g = DependencyGraph::new();
    let msg = SubscriptionMessage {
        subscriber: 11,
        rmw_receive_time: Some(900),
        publication: Some(PublicationMessage { publisher: 9, publication_time: Some(700) }),
    };
    feed(&mut g, ev(1_000, 1, Event::RmwTake { taken: true, message: msg }));
    feed(&mut g, ev(1_500, 1, Event::RmwTake { taken: true, message: msg }));
    // A message that was not taken changes nothing.
    feed(&mut g, ev(1_600, 1, Event::RmwTake { taken: false, message: msg }));
    let subscribers = g.subscribers_table();
    assert_eq!(subscribers.value_at(0).delays(), vec![500]);
    let edges = g.edges_table();
    assert_eq!(edges.key_at(0), Edge::PublisherSubscriberCommunication(9, 11));
    assert_eq!(edges.value_at(0).latencies(), vec![300, 800]);
    assert_eq!(edges.value_at(0).activation_delays(), vec![500]);
}

#[test]
fn subscription_callback_latency_is_time_since_receive() {
    let mut g = DependencyGraph::new();
    let msg = SubscriptionMessage { subscriber: 11, rmw_receive_time: Some(900), publication: None };
    let inst = CallbackInstance {
        id: 5,
        callback: 21,
        start_time: 1_000,
        trigger: CallbackTrigger::SubscriptionMessage(msg),
    };
    feed(&mut g, ev(1_000, 1, Event::CallbackStart(inst)));
    let edges = g.edges_table();
    assert_eq!(edges.key_at(0), Edge::SubscriberCallbackInvocation(11, 21));
    assert_eq!(edges.value_at(0).latencies(), vec![100]);
}

#[test]
fn refused_events() {
    let mut g = DependencyGraph::new();
    let a = timer_instance(1, 20, 100, 30, 4);
    let b = timer_instance(2, 21, 150, 31, 4);
    // A callback ending that never started is refused.
    assert!(!g.accepts_event(&ev(90, 1, Event::CallbackEnd(a))));
    feed(&mut g, ev(100, 1, Event::CallbackStart(a)));
    // A second callback cannot start on a thread that runs one.
    assert!(!g.accepts_event(&ev(150, 1, Event::CallbackStart(b))));
    // A message without a receive time cannot trigger a callback.
    let msg = SubscriptionMessage { subscriber: 11, rmw_receive_time: None, publication: None };
    let c = CallbackInstance {
        id: 3,
        callback: 22,
        start_time: 10,
        trigger: CallbackTrigger::SubscriptionMessage(msg),
    };
    assert!(!g.accepts_event(&ev(10, 2, Event::CallbackStart(c))));
    // A timer whose node is unknown cannot be invoked.
    let d = CallbackInstance {
        id: 4,
        callback: 23,
        start_time: 10,
        trigger: CallbackTrigger::Timer { timer: 40, node: None },
    };
    assert!(!g.accepts_event(&ev(10, 2, Event::CallbackStart(d))));
    // A delay that does not fit in 64 bits is refused.
    feed(&mut g, ev(i64::MIN, 5, Event::RmwPublish { publisher: 1 }));
    assert!(!g.accepts_event(&ev(i64::MAX, 5, Event::RmwPublish { publisher: 1 })));
    // Other events are always accepted.
    assert!(g.accepts_event(&ev(0, 1, Event::Other)));
}

#[test]
fn finalize_forgets_running_callbacks() {
    let mut g = DependencyGraph::new();
    let a = timer_instance(1, 20, 100, 30, 4);
    let b = timer_instance(2, 21, 150, 31, 4);
    feed(&mut g, ev(100, 1, Event::CallbackStart(a)));
    g.finalize();
    // After finalizing, the thread no longer runs a callback.
    assert!(g.accepts_event(&ev(150, 1, Event::CallbackStart(b))));
    g.initialize();
    assert_eq!(g.callbacks_table().len(), 0);
}

#[test]
fn assoc_map_keeps_insertion_order() {
    let mut m: AssocMap<u64, i64> = AssocMap::new();
    m.insert(3, 30);
    m.insert(1, 10);
    m.insert(3, 33);
    assert_eq!(m.len(), 2);
    assert_eq!(m.key_at(0), 3);
    assert_eq!(*m.value_at(0), 33);
    assert_eq!(m.get(&1), Some(&10));
    assert_eq!(m.find(&2), None);
    let removed = m.remove_at(0);
    assert_eq!(removed, (3, 33));
    assert_eq!(m.len(), 1);
}
