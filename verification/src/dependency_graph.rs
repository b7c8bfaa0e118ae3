//! The dependency graph of a ROS 2 system, built from the events of a trace.
//!
//! Entities (publishers, subscribers, timers, services, callbacks and ROS
//! nodes) are identified by integers. The graph records, per entity and per
//! edge between entities, the delays between consecutive activations, and per
//! edge the latency of each activation.
use vstd::prelude::*;
use crate::assoc::{
    all_values, has_key, index_of, insert, keys_unique, lemma_index_of_unique,
    lemma_insert_keeps_unique, lemma_remove_all_values, lemma_remove_keeps_other_keys,
    lemma_remove_keeps_unique, lemma_upsert_all_values, lemma_upsert_keeps_unique,
    lemma_viewed_keys, lemma_viewed_push, lemma_viewed_update, lookup, remove, upsert, viewed,
    AssocMap, MapKey,
};

verus! {

/// The latency recorded when no reference time is known.
pub const LATENCY_INVALID: i64 = 9223372036854775807;

/// Whether `x` is representable as an `i64`.
pub open spec fn fits(x: int) -> bool {
    i64::MIN <= x <= i64::MAX
}

/// The execution context of an event: the thread and the host it ran on.
#[derive(Debug, Clone, Copy, PartialEq, Eq, Structural)]
pub struct Context {
    pub vtid: u32,
    pub host: u64,
}

/// A thread of the traced system.
#[derive(Debug, Clone, Copy, PartialEq, Eq, Structural)]
pub struct ThreadId {
    pub vtid: u32,
    pub host: u64,
}

impl ThreadId {
    pub open spec fn spec_from_context(context: Context) -> ThreadId {
        ThreadId { vtid: context.vtid, host: context.host }
    }

    /// The thread an event ran on.
    pub fn from(context: &Context) -> (t: ThreadId)
        ensures
            t == Self::spec_from_context(*context),
    {
        ThreadId { vtid: context.vtid, host: context.host }
    }
}

impl MapKey for ThreadId {
    fn same_key(&self, other: &Self) -> (r: bool) {
        *self == *other
    }
}

/// A vertex of the dependency graph.
#[derive(Debug, Clone, Copy, PartialEq, Eq, Structural)]
pub enum Node {
    Publisher(u64),
    Subscriber(u64),
    Service(u64),
    Timer(u64),
    Callback(u64),
}

impl MapKey for Node {
    fn same_key(&self, other: &Self) -> (r: bool) {
        *self == *other
    }
}

/// The kind of a vertex.
#[derive(Debug, Clone, Copy, PartialEq, Eq, Structural)]
pub enum NodeType {
    Publisher,
    Subscriber,
    Service,
    Timer,
    Callback,
}

/// An edge of the dependency graph.
#[derive(Debug, Clone, Copy, PartialEq, Eq, Structural)]
pub enum Edge {
    /// A publisher (first) used inside a callback (second).
    PublicationInCallback(u64, u64),
    /// A subscriber (first) invoking a callback (second).
    SubscriberCallbackInvocation(u64, u64),
    /// A service (first) invoking a callback (second).
    ServiceCallbackInvocation(u64, u64),
    /// A timer (first) invoking a callback (second).
    TimerCallbackInvocation(u64, u64),
    /// A publisher (first) delivering to a subscriber (second).
    PublisherSubscriberCommunication(u64, u64),
}

impl MapKey for Edge {
    fn same_key(&self, other: &Self) -> (r: bool) {
        *self == *other
    }
}

/// The kind of an edge.
#[derive(Debug, Clone, Copy, PartialEq, Eq, Structural)]
pub enum EdgeType {
    PublisherSubscriberCommunication,
    SubscriberCallbackInvocation,
    TimerCallbackInvocation,
    ServiceCallbackInvocation,
    PublicationInCallback,
}

impl Edge {
    pub open spec fn spec_source(self) -> Node {
        match self {
            Edge::PublicationInCallback(_p, c) => Node::Callback(c),
            Edge::SubscriberCallbackInvocation(s, _c) => Node::Subscriber(s),
            Edge::ServiceCallbackInvocation(s, _c) => Node::Service(s),
            Edge::TimerCallbackInvocation(t, _c) => Node::Timer(t),
            Edge::PublisherSubscriberCommunication(p, _s) => Node::Publisher(p),
        }
    }

    pub open spec fn spec_target(self) -> Node {
        match self {
            Edge::PublicationInCallback(p, _c) => Node::Publisher(p),
            Edge::SubscriberCallbackInvocation(_s, c) => Node::Callback(c),
            Edge::ServiceCallbackInvocation(_s, c) => Node::Callback(c),
            Edge::TimerCallbackInvocation(_t, c) => Node::Callback(c),
            Edge::PublisherSubscriberCommunication(_p, s) => Node::Subscriber(s),
        }
    }

    pub open spec fn spec_type(self) -> EdgeType {
        match self {
            Edge::PublicationInCallback(_, _) => EdgeType::PublicationInCallback,
            Edge::SubscriberCallbackInvocation(_, _) => EdgeType::SubscriberCallbackInvocation,
            Edge::ServiceCallbackInvocation(_, _) => EdgeType::ServiceCallbackInvocation,
            Edge::TimerCallbackInvocation(_, _) => EdgeType::TimerCallbackInvocation,
            Edge::PublisherSubscriberCommunication(_, _) => EdgeType::PublisherSubscriberCommunication,
        }
    }

    /// The vertex the edge leaves.
    pub fn source(&self) -> (n: Node)
        ensures
            n == self.spec_source(),
    {
        match *self {
            Edge::PublicationInCallback(_p, c) => Node::Callback(c),
            Edge::SubscriberCallbackInvocation(s, _c) => Node::Subscriber(s),
            Edge::ServiceCallbackInvocation(s, _c) => Node::Service(s),
            Edge::TimerCallbackInvocation(t, _c) => Node::Timer(t),
            Edge::PublisherSubscriberCommunication(p, _s) => Node::Publisher(p),
        }
    }

    /// The vertex the edge enters.
    pub fn target(&self) -> (n: Node)
        ensures
            n == self.spec_target(),
    {
        match *self {
            Edge::PublicationInCallback(p, _c) => Node::Publisher(p),
            Edge::SubscriberCallbackInvocation(_s, c) => Node::Callback(c),
            Edge::ServiceCallbackInvocation(_s, c) => Node::Callback(c),
            Edge::TimerCallbackInvocation(_t, c) => Node::Callback(c),
            Edge::PublisherSubscriberCommunication(_p, s) => Node::Subscriber(s),
        }
    }

    /// The kind of the edge.
    pub fn as_type(&self) -> (t: EdgeType)
        ensures
            t == self.spec_type(),
    {
        match *self {
            Edge::PublicationInCallback(_, _) => EdgeType::PublicationInCallback,
            Edge::SubscriberCallbackInvocation(_, _) => EdgeType::SubscriberCallbackInvocation,
            Edge::ServiceCallbackInvocation(_, _) => EdgeType::ServiceCallbackInvocation,
            Edge::TimerCallbackInvocation(_, _) => EdgeType::TimerCallbackInvocation,
            Edge::PublisherSubscriberCommunication(_, _) => EdgeType::PublisherSubscriberCommunication,
        }
    }
}

// ---------------------------------------------------------------------------
// Events
// ---------------------------------------------------------------------------

/// A message as published: the publisher and, once known, the time of publication.
#[derive(Debug, Clone, Copy, PartialEq, Eq, Structural)]
pub struct PublicationMessage {
    pub publisher: u64,
    pub publication_time: Option<i64>,
}

/// A message as received by a subscriber.
#[derive(Debug, Clone, Copy, PartialEq, Eq, Structural)]
pub struct SubscriptionMessage {
    pub subscriber: u64,
    /// When the middleware received the message, once known.
    pub rmw_receive_time: Option<i64>,
    /// The publication this message came from, where it could be matched.
    pub publication: Option<PublicationMessage>,
}

/// What started a callback.
#[derive(Debug, Clone, Copy, PartialEq, Eq, Structural)]
pub enum CallbackTrigger {
    SubscriptionMessage(SubscriptionMessage),
    /// A timer, with the ROS node it belongs to, where known.
    Timer { timer: u64, node: Option<u64> },
    /// A service, with the ROS node it belongs to, where known.
    Service { service: u64, node: Option<u64> },
}

/// One execution of a callback.
#[derive(Debug, Clone, Copy, PartialEq, Eq, Structural)]
pub struct CallbackInstance {
    /// Identifies this execution.
    pub id: u64,
    /// The callback that runs.
    pub callback: u64,
    pub start_time: i64,
    pub trigger: CallbackTrigger,
}

/// The events that the dependency graph reads.
#[derive(Debug, Clone, Copy, PartialEq, Eq, Structural)]
pub enum Event {
    RclNodeInit { node: u64 },
    CallbackStart(CallbackInstance),
    CallbackEnd(CallbackInstance),
    RmwTake { taken: bool, message: SubscriptionMessage },
    RmwPublish { publisher: u64 },
    SpinWake { node: u64 },
    SpinEnd { node: u64 },
    /// Any other event; it does not change the graph.
    Other,
}

/// An event with its time (in nanoseconds) and context.
#[derive(Debug, Clone, Copy, PartialEq, Eq, Structural)]
pub struct FullEvent {
    pub time: i64,
    pub context: Context,
    pub event: Event,
}

// ---------------------------------------------------------------------------
// Per-entity records
// ---------------------------------------------------------------------------

/// The delays between consecutive activations, and the last activation time.
pub struct ActivationRecord {
    delays: Vec<i64>,
    last: Option<i64>,
}

/// What an activation record holds.
pub struct ActivationsView {
    pub delays: Seq<i64>,
    pub last: Option<i64>,
}

impl View for ActivationRecord {
    type V = ActivationsView;

    closed spec fn view(&self) -> ActivationsView {
        ActivationsView { delays: self.delays@, last: self.last }
    }
}

/// The record of a publisher: delays between consecutive publications.
pub type PublisherNode = ActivationRecord;

/// The record of a subscriber: delays between consecutive takes.
pub type SubscriberNode = ActivationRecord;

/// The record of a timer: delays between consecutive activations.
pub type TimerNode = ActivationRecord;

pub open spec fn no_activations() -> ActivationsView {
    ActivationsView { delays: Seq::empty(), last: None }
}

/// An activation at `t`: the delay since the previous activation, if any, is appended.
pub open spec fn record(a: ActivationsView, t: i64) -> ActivationsView {
    ActivationsView {
        delays: match a.last {
            Some(p) => a.delays.push((t - p) as i64),
            None => a.delays,
        },
        last: Some(t),
    }
}

/// An activation at `t` can be recorded without overflow.
pub open spec fn record_ok(a: ActivationsView, t: i64) -> bool {
    match a.last {
        Some(p) => fits(t - p),
        None => true,
    }
}

impl ActivationRecord {
    pub fn new() -> (r: Self)
        ensures
            r@ == no_activations(),
    {
        ActivationRecord { delays: Vec::new(), last: None }
    }

    /// Records an activation at `t`.
    pub fn record(&mut self, t: i64)
        requires
            record_ok(old(self)@, t),
        ensures
            final(self)@ == record(old(self)@, t),
    {
        let previous = self.last;
        self.last = Some(t);
        match previous {
            Some(p) => {
                self.delays.push(t - p);
            },
            None => {},
        }
    }

    /// The delays between consecutive activations.
    pub fn delays(&self) -> (d: Vec<i64>)
        ensures
            d@ == self@.delays,
    {
        self.delays.clone()
    }

    /// The time of the last activation, if any.
    pub fn last(&self) -> (l: Option<i64>)
        ensures
            l == self@.last,
    {
        self.last
    }
}

/// The record of a callback.
pub struct CallbackNode {
    activations: ActivationRecord,
    durations: Vec<i64>,
}

pub struct CallbackNodeView {
    /// Delays between consecutive starts.
    pub activations: ActivationsView,
    /// Durations of the executions (start to end).
    pub durations: Seq<i64>,
}

impl View for CallbackNode {
    type V = CallbackNodeView;

    closed spec fn view(&self) -> CallbackNodeView {
        CallbackNodeView { activations: self.activations@, durations: self.durations@ }
    }
}

pub open spec fn no_callback_activity() -> CallbackNodeView {
    CallbackNodeView { activations: no_activations(), durations: Seq::empty() }
}

/// A start of a callback at `t` can be recorded without overflow.
pub open spec fn start_ok(c: CallbackNodeView, t: i64) -> bool {
    record_ok(c.activations, t)
}

/// An end of a callback at `t` follows a start, and its duration fits.
pub open spec fn end_ok(c: CallbackNodeView, t: i64) -> bool {
    match c.activations.last {
        Some(s) => fits(t - s),
        None => false,
    }
}

impl CallbackNode {
    pub fn new() -> (c: Self)
        ensures
            c@ == no_callback_activity(),
    {
        CallbackNode { activations: ActivationRecord::new(), durations: Vec::new() }
    }

    /// Records a start of the callback at `t`.
    pub fn start(&mut self, t: i64)
        requires
            start_ok(old(self)@, t),
        ensures
            final(self)@ == (callback_starter(t))(old(self)@),
    {
        self.activations.record(t);
    }

    /// Records an end of the callback at `t`: its duration since the last start.
    pub fn end(&mut self, t: i64)
        requires
            end_ok(old(self)@, t),
        ensures
            final(self)@ == (callback_ender(t))(old(self)@),
    {
        let s = self.activations.last().unwrap();
        self.durations.push(t - s);
    }

    /// The delays between consecutive starts.
    pub fn activation_delays(&self) -> (d: Vec<i64>)
        ensures
            d@ == self@.activations.delays,
    {
        self.activations.delays()
    }

    /// The time of the last start, if any.
    pub fn last_start(&self) -> (l: Option<i64>)
        ensures
            l == self@.activations.last,
    {
        self.activations.last()
    }

    /// The durations of the executions.
    pub fn durations(&self) -> (d: Vec<i64>)
        ensures
            d@ == self@.durations,
    {
        self.durations.clone()
    }
}

/// The record of an edge.
pub struct EdgeData {
    activations: ActivationRecord,
    latencies: Vec<i64>,
}

pub struct EdgeDataView {
    /// Delays between consecutive activations of the edge.
    pub activations: ActivationsView,
    /// The latency of each activation.
    pub latencies: Seq<i64>,
}

impl View for EdgeData {
    type V = EdgeDataView;

    closed spec fn view(&self) -> EdgeDataView {
        EdgeDataView { activations: self.activations@, latencies: self.latencies@ }
    }
}

pub open spec fn no_edge_activity() -> EdgeDataView {
    EdgeDataView { activations: no_activations(), latencies: Seq::empty() }
}

impl EdgeData {
    pub fn new() -> (d: Self)
        ensures
            d@ == no_edge_activity(),
    {
        EdgeData { activations: ActivationRecord::new(), latencies: Vec::new() }
    }

    /// Records an activation at `t` with the given latency.
    pub fn activate(&mut self, t: i64, latency: i64)
        requires
            record_ok(old(self)@.activations, t),
        ensures
            final(self)@ == activate(old(self)@, t, latency),
    {
        self.activations.record(t);
        self.latencies.push(latency);
    }

    /// The delays between consecutive activations.
    pub fn activation_delays(&self) -> (d: Vec<i64>)
        ensures
            d@ == self@.activations.delays,
    {
        self.activations.delays()
    }

    /// The time of the last activation, if any.
    pub fn last_activation(&self) -> (l: Option<i64>)
        ensures
            l == self@.activations.last,
    {
        self.activations.last()
    }

    /// The latency of each activation.
    pub fn latencies(&self) -> (d: Vec<i64>)
        ensures
            d@ == self@.latencies,
    {
        self.latencies.clone()
    }
}

/// An activation of an edge at `t` with the given latency.
pub open spec fn activate(d: EdgeDataView, t: i64, latency: i64) -> EdgeDataView {
    EdgeDataView { activations: record(d.activations, t), latencies: d.latencies.push(latency) }
}

pub open spec fn recorder(t: i64) -> spec_fn(ActivationsView) -> ActivationsView {
    |a: ActivationsView| record(a, t)
}

pub open spec fn activator(t: i64, latency: i64) -> spec_fn(EdgeDataView) -> EdgeDataView {
    |d: EdgeDataView| activate(d, t, latency)
}

/// A start of a callback at `t`.
pub open spec fn callback_starter(t: i64) -> spec_fn(CallbackNodeView) -> CallbackNodeView {
    |c: CallbackNodeView| CallbackNodeView { activations: record(c.activations, t), durations: c.durations }
}

/// An end of a callback at `t`: the time since its last start is a duration.
pub open spec fn callback_ender(t: i64) -> spec_fn(CallbackNodeView) -> CallbackNodeView {
    |c: CallbackNodeView|
        CallbackNodeView {
            activations: c.activations,
            durations: c.durations.push((t - c.activations.last.unwrap()) as i64),
        }
}

/// A callback execution that has started and not yet ended.
#[derive(Debug, Clone, Copy, PartialEq, Eq, Structural)]
pub struct RunningCallback {
    pub instance: u64,
    pub callback: u64,
    pub start_time: i64,
}

// ---------------------------------------------------------------------------
// The abstract graph
// ---------------------------------------------------------------------------

/// What the dependency graph holds.
pub struct GraphView {
    pub ros_nodes: Seq<u64>,
    pub edges: Seq<(Edge, EdgeDataView)>,
    pub publishers: Seq<(u64, ActivationsView)>,
    pub subscribers: Seq<(u64, ActivationsView)>,
    pub timers: Seq<(u64, ActivationsView)>,
    pub callbacks: Seq<(u64, CallbackNodeView)>,
    /// The last time each ROS node woke from spinning.
    pub spin_wakes: Seq<(u64, i64)>,
    /// The callback running on each thread.
    pub running: Seq<(ThreadId, RunningCallback)>,
}

pub open spec fn empty_graph() -> GraphView {
    GraphView {
        ros_nodes: Seq::empty(),
        edges: Seq::empty(),
        publishers: Seq::empty(),
        subscribers: Seq::empty(),
        timers: Seq::empty(),
        callbacks: Seq::empty(),
        spin_wakes: Seq::empty(),
        running: Seq::empty(),
    }
}

pub open spec fn activations_of<K>(m: Seq<(K, ActivationsView)>, k: K) -> ActivationsView {
    match lookup(m, k) {
        Some(a) => a,
        None => no_activations(),
    }
}

pub open spec fn edge_data_of(g: GraphView, e: Edge) -> EdgeDataView {
    match lookup(g.edges, e) {
        Some(d) => d,
        None => no_edge_activity(),
    }
}

pub open spec fn callback_data_of(g: GraphView, c: u64) -> CallbackNodeView {
    match lookup(g.callbacks, c) {
        Some(d) => d,
        None => no_callback_activity(),
    }
}

/// The latency of a timer or service callback: time since its node last woke
/// from spinning, or `LATENCY_INVALID` where no wake-up is known.
pub open spec fn wake_latency(g: GraphView, node: u64, t: i64) -> int {
    match lookup(g.spin_wakes, node) {
        Some(w) => t - w,
        None => LATENCY_INVALID as int,
    }
}

pub open spec fn after_timer_invocation(g: GraphView, timer: u64, t: i64) -> GraphView {
    GraphView {
        timers: upsert(g.timers, timer, no_activations(), recorder(t)),
        ..g
    }
}

pub open spec fn after_edge_activation(g: GraphView, e: Edge, t: i64, latency: i64) -> GraphView {
    GraphView {
        edges: upsert(g.edges, e, no_edge_activity(), activator(t, latency)),
        ..g
    }
}

pub open spec fn edge_activation_ok(g: GraphView, e: Edge, t: i64, latency: int) -> bool {
    record_ok(edge_data_of(g, e).activations, t) && fits(latency)
}

/// The edge into callback `cb` that `trigger` activates at `t`.
pub open spec fn after_edge_to_callback(g: GraphView, cb: u64, trigger: CallbackTrigger, t: i64) -> GraphView {
    match trigger {
        CallbackTrigger::SubscriptionMessage(m) => after_edge_activation(
            g,
            Edge::SubscriberCallbackInvocation(m.subscriber, cb),
            t,
            (t - m.rmw_receive_time.unwrap()) as i64,
        ),
        CallbackTrigger::Timer { timer, node } => {
            let g1 = after_timer_invocation(g, timer, t);
            after_edge_activation(
                g1,
                Edge::TimerCallbackInvocation(timer, cb),
                t,
                wake_latency(g1, node.unwrap(), t) as i64,
            )
        },
        CallbackTrigger::Service { service, node } => after_edge_activation(
            g,
            Edge::ServiceCallbackInvocation(service, cb),
            t,
            wake_latency(g, node.unwrap(), t) as i64,
        ),
    }
}

pub open spec fn edge_to_callback_ok(g: GraphView, cb: u64, trigger: CallbackTrigger, t: i64) -> bool {
    match trigger {
        CallbackTrigger::SubscriptionMessage(m) => match m.rmw_receive_time {
            Some(r) => edge_activation_ok(g, Edge::SubscriberCallbackInvocation(m.subscriber, cb), t, t - r),
            None => false,
        },
        CallbackTrigger::Timer { timer, node } => match node {
            Some(n) => record_ok(activations_of(g.timers, timer), t) && edge_activation_ok(
                g,
                Edge::TimerCallbackInvocation(timer, cb),
                t,
                wake_latency(g, n, t),
            ),
            None => false,
        },
        CallbackTrigger::Service { service, node } => match node {
            Some(n) => edge_activation_ok(g, Edge::ServiceCallbackInvocation(service, cb), t, wake_latency(g, n, t)),
            None => false,
        },
    }
}

/// The callback of `inst` marked as running on `thread`, and its start recorded.
pub open spec fn after_callback_registered(g: GraphView, inst: CallbackInstance, t: i64, thread: ThreadId) -> GraphView {
    GraphView {
        running: insert(
            g.running,
            thread,
            RunningCallback { instance: inst.id, callback: inst.callback, start_time: inst.start_time },
        ),
        callbacks: upsert(g.callbacks, inst.callback, no_callback_activity(), callback_starter(t)),
        ..g
    }
}

pub open spec fn after_callback_start(g: GraphView, inst: CallbackInstance, t: i64, thread: ThreadId) -> GraphView {
    after_edge_to_callback(after_callback_registered(g, inst, t, thread), inst.callback, inst.trigger, t)
}

pub open spec fn callback_start_ok(g: GraphView, inst: CallbackInstance, t: i64, thread: ThreadId) -> bool {
    &&& !has_key(g.running, thread)
    &&& record_ok(callback_data_of(g, inst.callback).activations, t)
    &&& edge_to_callback_ok(g, inst.callback, inst.trigger, t)
}

pub open spec fn after_callback_end(g: GraphView, inst: CallbackInstance, t: i64, thread: ThreadId) -> GraphView {
    GraphView {
        running: remove(g.running, thread),
        callbacks: upsert(g.callbacks, inst.callback, no_callback_activity(), callback_ender(t)),
        ..g
    }
}

pub open spec fn callback_end_ok(g: GraphView, inst: CallbackInstance, t: i64, thread: ThreadId) -> bool {
    &&& match lookup(g.running, thread) {
        Some(r) => r.instance == inst.id,
        None => true,
    }
    &&& has_key(g.callbacks, inst.callback)
    &&& match callback_data_of(g, inst.callback).activations.last {
        Some(s) => fits(t - s),
        None => false,
    }
}

pub open spec fn after_rmw_take(g: GraphView, taken: bool, m: SubscriptionMessage, t: i64) -> GraphView {
    if !taken {
        g
    } else {
        let g1 = GraphView {
            subscribers: upsert(g.subscribers, m.subscriber, no_activations(), recorder(t)),
            ..g
        };
        match m.publication {
            None => g1,
            Some(p) => after_edge_activation(
                g1,
                Edge::PublisherSubscriberCommunication(p.publisher, m.subscriber),
                t,
                (t - p.publication_time.unwrap()) as i64,
            ),
        }
    }
}

pub open spec fn rmw_take_ok(g: GraphView, taken: bool, m: SubscriptionMessage, t: i64) -> bool {
    taken ==> {
        &&& record_ok(activations_of(g.subscribers, m.subscriber), t)
        &&& match m.publication {
            None => true,
            Some(p) => match p.publication_time {
                Some(pt) => edge_activation_ok(g, Edge::PublisherSubscriberCommunication(p.publisher, m.subscriber), t, t - pt),
                None => false,
            },
        }
    }
}

pub open spec fn after_publication(g: GraphView, publisher: u64, t: i64, thread: ThreadId) -> GraphView {
    let g1 = GraphView {
        publishers: upsert(g.publishers, publisher, no_activations(), recorder(t)),
        ..g
    };
    match lookup(g.running, thread) {
        Some(r) => after_edge_activation(
            g1,
            Edge::PublicationInCallback(publisher, r.callback),
            t,
            (t - r.start_time) as i64,
        ),
        None => g1,
    }
}

pub open spec fn publication_ok(g: GraphView, publisher: u64, t: i64, thread: ThreadId) -> bool {
    &&& record_ok(activations_of(g.publishers, publisher), t)
    &&& match lookup(g.running, thread) {
        Some(r) => edge_activation_ok(g, Edge::PublicationInCallback(publisher, r.callback), t, t - r.start_time),
        None => true,
    }
}

/// The graph after `e`.
pub open spec fn after_event(g: GraphView, e: FullEvent) -> GraphView {
    let thread = ThreadId::spec_from_context(e.context);
    match e.event {
        Event::RclNodeInit { node } => GraphView { ros_nodes: g.ros_nodes.push(node), ..g },
        Event::CallbackStart(inst) => after_callback_start(g, inst, e.time, thread),
        Event::CallbackEnd(inst) => after_callback_end(g, inst, e.time, thread),
        Event::RmwTake { taken, message } => after_rmw_take(g, taken, message, e.time),
        Event::RmwPublish { publisher } => after_publication(g, publisher, e.time, thread),
        Event::SpinWake { node } => GraphView { spin_wakes: insert(g.spin_wakes, node, e.time), ..g },
        Event::SpinEnd { .. } => g,
        Event::Other => g,
    }
}

/// The events that the graph accepts in state `g`: those on which processing
/// neither overflows nor meets a state it cannot handle (a callback starting
/// on a thread that already runs one, a callback ending on a thread that runs
/// another, a callback ending that never started, a message whose timing or
/// node is unknown).
pub open spec fn accepts(g: GraphView, e: FullEvent) -> bool {
    let thread = ThreadId::spec_from_context(e.context);
    match e.event {
        Event::CallbackStart(inst) => callback_start_ok(g, inst, e.time, thread),
        Event::CallbackEnd(inst) => callback_end_ok(g, inst, e.time, thread),
        Event::RmwTake { taken, message } => rmw_take_ok(g, taken, message, e.time),
        Event::RmwPublish { publisher } => publication_ok(g, publisher, e.time, thread),
        _ => true,
    }
}

pub open spec fn active(a: ActivationsView) -> bool {
    a.last is Some
}

pub open spec fn callback_active(c: CallbackNodeView) -> bool {
    c.activations.last is Some
}

/// An edge that was activated, with one latency per activation.
pub open spec fn edge_consistent(d: EdgeDataView) -> bool {
    &&& d.activations.last is Some
    &&& d.latencies.len() == d.activations.delays.len() + 1
}

/// The invariant of the graph: keys are unique in every table; every recorded
/// entity and edge has been activated at least once; every edge holds one
/// latency per activation, hence one more latency than activation delays; and
/// every running callback has a record.
pub open spec fn graph_inv(g: GraphView) -> bool {
    &&& keys_unique(g.edges)
    &&& keys_unique(g.publishers)
    &&& keys_unique(g.subscribers)
    &&& keys_unique(g.timers)
    &&& keys_unique(g.callbacks)
    &&& keys_unique(g.spin_wakes)
    &&& keys_unique(g.running)
    &&& all_values(g.publishers, |a: ActivationsView| active(a))
    &&& all_values(g.subscribers, |a: ActivationsView| active(a))
    &&& all_values(g.timers, |a: ActivationsView| active(a))
    &&& all_values(g.callbacks, |c: CallbackNodeView| callback_active(c))
    &&& all_values(g.edges, |d: EdgeDataView| edge_consistent(d))
    &&& forall|i: int| 0 <= i < g.running.len() ==> has_key(g.callbacks, (#[trigger] g.running[i]).1.callback)
}

pub(crate) proof fn lemma_record_keeps_active<K>(m: Seq<(K, ActivationsView)>, k: K, t: i64)
    requires
        keys_unique(m),
        all_values(m, |a: ActivationsView| active(a)),
    ensures
        keys_unique(upsert(m, k, no_activations(), recorder(t))),
        all_values(upsert(m, k, no_activations(), recorder(t)), |a: ActivationsView| active(a)),
{
    lemma_upsert_keeps_unique(m, k, no_activations(), recorder(t));
    lemma_upsert_all_values(m, k, no_activations(), recorder(t), |a: ActivationsView| active(a));
}

pub(crate) proof fn lemma_edge_activation_inv(g: GraphView, e: Edge, t: i64, latency: i64)
    requires
        graph_inv(g),
    ensures
        graph_inv(after_edge_activation(g, e, t, latency)),
{
    lemma_upsert_keeps_unique(g.edges, e, no_edge_activity(), activator(t, latency));
    if has_key(g.edges, e) {
        let i = index_of(g.edges, e);
        assert(edge_consistent(g.edges[i].1));
    }
    lemma_upsert_all_values(
        g.edges,
        e,
        no_edge_activity(),
        activator(t, latency),
        |d: EdgeDataView| edge_consistent(d),
    );
}

pub(crate) proof fn lemma_timer_invocation_inv(g: GraphView, timer: u64, t: i64)
    requires
        graph_inv(g),
    ensures
        graph_inv(after_timer_invocation(g, timer, t)),
{
    lemma_record_keeps_active(g.timers, timer, t);
}

pub(crate) proof fn lemma_edge_to_callback_inv(g: GraphView, cb: u64, trigger: CallbackTrigger, t: i64)
    requires
        graph_inv(g),
    ensures
        graph_inv(after_edge_to_callback(g, cb, trigger, t)),
{
    match trigger {
        CallbackTrigger::SubscriptionMessage(m) => {
            lemma_edge_activation_inv(
                g,
                Edge::SubscriberCallbackInvocation(m.subscriber, cb),
                t,
                (t - m.rmw_receive_time.unwrap()) as i64,
            );
        },
        CallbackTrigger::Timer { timer, node } => {
            let g1 = after_timer_invocation(g, timer, t);
            lemma_timer_invocation_inv(g, timer, t);
            lemma_edge_activation_inv(
                g1,
                Edge::TimerCallbackInvocation(timer, cb),
                t,
                wake_latency(g1, node.unwrap(), t) as i64,
            );
        },
        CallbackTrigger::Service { service, node } => {
            lemma_edge_activation_inv(
                g,
                Edge::ServiceCallbackInvocation(service, cb),
                t,
                wake_latency(g, node.unwrap(), t) as i64,
            );
        },
    }
}

pub(crate) proof fn lemma_callback_registered_inv(g: GraphView, inst: CallbackInstance, t: i64, thread: ThreadId)
    requires
        graph_inv(g),
    ensures
        graph_inv(after_callback_registered(g, inst, t, thread)),
{
    let rc = RunningCallback { instance: inst.id, callback: inst.callback, start_time: inst.start_time };
    let cbs = upsert(g.callbacks, inst.callback, no_callback_activity(), callback_starter(t));
    let g1 = GraphView { running: insert(g.running, thread, rc), callbacks: cbs, ..g };
    lemma_upsert_keeps_unique(g.callbacks, inst.callback, no_callback_activity(), callback_starter(t));
    lemma_upsert_all_values(
        g.callbacks,
        inst.callback,
        no_callback_activity(),
        callback_starter(t),
        |c: CallbackNodeView| callback_active(c),
    );
    lemma_insert_keeps_unique(g.running, thread, rc);
    let p = |r: RunningCallback| has_key(cbs, r.callback);
    assert(all_values(g.running, p)) by {
        assert forall|i: int| 0 <= i < g.running.len() implies p(#[trigger] g.running[i].1) by {
            assert(has_key(g.callbacks, g.running[i].1.callback));
        }
    }
    lemma_upsert_all_values(g.running, thread, rc, |x: RunningCallback| rc, p);
    assert(insert(g.running, thread, rc) == upsert(g.running, thread, rc, |x: RunningCallback| rc));
    assert forall|i: int| 0 <= i < g1.running.len() implies has_key(g1.callbacks, (#[trigger] g1.running[i]).1.callback) by {
        assert(p(g1.running[i].1));
    }
}

pub(crate) proof fn lemma_callback_start_inv(g: GraphView, inst: CallbackInstance, t: i64, thread: ThreadId)
    requires
        graph_inv(g),
    ensures
        graph_inv(after_callback_start(g, inst, t, thread)),
{
    lemma_callback_registered_inv(g, inst, t, thread);
    lemma_edge_to_callback_inv(after_callback_registered(g, inst, t, thread), inst.callback, inst.trigger, t);
}

pub(crate) proof fn lemma_callback_end_inv(g: GraphView, inst: CallbackInstance, t: i64, thread: ThreadId)
    requires
        graph_inv(g),
        has_key(g.callbacks, inst.callback),
    ensures
        graph_inv(after_callback_end(g, inst, t, thread)),
{
    let cbs = upsert(g.callbacks, inst.callback, no_callback_activity(), callback_ender(t));
    let g1 = after_callback_end(g, inst, t, thread);
    lemma_upsert_keeps_unique(g.callbacks, inst.callback, no_callback_activity(), callback_ender(t));
    let i = index_of(g.callbacks, inst.callback);
    assert(callback_active(g.callbacks[i].1));
    lemma_upsert_all_values(
        g.callbacks,
        inst.callback,
        no_callback_activity(),
        callback_ender(t),
        |c: CallbackNodeView| callback_active(c),
    );
    lemma_remove_keeps_unique(g.running, thread);
    let p = |r: RunningCallback| has_key(cbs, r.callback);
    assert(all_values(g.running, p)) by {
        assert forall|j: int| 0 <= j < g.running.len() implies p(#[trigger] g.running[j].1) by {
            assert(has_key(g.callbacks, g.running[j].1.callback));
        }
    }
    lemma_remove_all_values(g.running, thread, p);
    assert forall|j: int| 0 <= j < g1.running.len() implies has_key(g1.callbacks, (#[trigger] g1.running[j]).1.callback) by {
        assert(p(g1.running[j].1));
    }
}

/// The edge into callback `cb` that `trigger` activates.
pub open spec fn edge_into_callback(cb: u64, trigger: CallbackTrigger) -> Edge {
    match trigger {
        CallbackTrigger::SubscriptionMessage(m) => Edge::SubscriberCallbackInvocation(m.subscriber, cb),
        CallbackTrigger::Timer { timer, node } => Edge::TimerCallbackInvocation(timer, cb),
        CallbackTrigger::Service { service, node } => Edge::ServiceCallbackInvocation(service, cb),
    }
}

/// An edge that was never activated (no last activation, no latency, no
/// delay), or one that holds one latency per activation, hence one more
/// latency than activation delays.
pub open spec fn edge_counts_ok(d: EdgeDataView) -> bool {
    ||| (d.activations.last is None && d.latencies.len() == 0 && d.activations.delays.len() == 0)
    ||| (d.activations.last is Some && d.latencies.len() == d.activations.delays.len() + 1)
}

/// Activating the edge into a callback keeps every edge with consistent
/// counts (and the graph invariant, where it held), adds exactly one latency
/// to that edge and keeps its earlier ones, and leaves every other edge as it
/// was.
pub proof fn law_edge_to_callback(g: GraphView, cb: u64, trigger: CallbackTrigger, t: i64)
    requires
        keys_unique(g.edges),
        all_values(g.edges, |d: EdgeDataView| edge_counts_ok(d)),
    ensures
        ({
            let g2 = after_edge_to_callback(g, cb, trigger, t);
            let e = edge_into_callback(cb, trigger);
            &&& graph_inv(g) ==> graph_inv(g2)
            &&& keys_unique(g2.edges)
            &&& all_values(g2.edges, |d: EdgeDataView| edge_counts_ok(d))
            &&& edge_data_of(g2, e).latencies.len() == edge_data_of(g, e).latencies.len() + 1
            &&& edge_data_of(g2, e).latencies.drop_last() == edge_data_of(g, e).latencies
            &&& forall|o: Edge| o != e ==> edge_data_of(g2, o) == edge_data_of(g, o)
        }),
{
    if graph_inv(g) {
        lemma_edge_to_callback_inv(g, cb, trigger, t);
    }
    let e = edge_into_callback(cb, trigger);
    let g1 = match trigger {
        CallbackTrigger::Timer { timer, node } => after_timer_invocation(g, timer, t),
        _ => g,
    };
    let latency: i64 = match trigger {
        CallbackTrigger::SubscriptionMessage(m) => (t - m.rmw_receive_time.unwrap()) as i64,
        CallbackTrigger::Timer { timer, node } => wake_latency(g1, node.unwrap(), t) as i64,
        CallbackTrigger::Service { service, node } => wake_latency(g, node.unwrap(), t) as i64,
    };
    assert(g1.edges == g.edges);
    assert(after_edge_to_callback(g, cb, trigger, t) == after_edge_activation(g1, e, t, latency));
    lemma_upsert_keeps_unique(g.edges, e, no_edge_activity(), activator(t, latency));
    let old_d = edge_data_of(g, e);
    assert(edge_data_of(after_edge_activation(g1, e, t, latency), e) == activate(old_d, t, latency));
    assert(old_d.latencies.push(latency).drop_last() =~= old_d.latencies);
    if has_key(g.edges, e) {
        let i = index_of(g.edges, e);
        assert(edge_counts_ok(g.edges[i].1));
    }
    lemma_upsert_all_values(
        g.edges,
        e,
        no_edge_activity(),
        activator(t, latency),
        |d: EdgeDataView| edge_counts_ok(d),
    );
}

/// Every event that the graph accepts keeps its invariant.
pub proof fn lemma_after_event_inv(g: GraphView, e: FullEvent)
    requires
        graph_inv(g),
        accepts(g, e),
    ensures
        graph_inv(after_event(g, e)),
{
    let thread = ThreadId::spec_from_context(e.context);
    match e.event {
        Event::RclNodeInit { node } => {},
        Event::CallbackStart(inst) => lemma_callback_start_inv(g, inst, e.time, thread),
        Event::CallbackEnd(inst) => lemma_callback_end_inv(g, inst, e.time, thread),
        Event::RmwTake { taken, message } => {
            if taken {
                lemma_record_keeps_active(g.subscribers, message.subscriber, e.time);
                let g1 = GraphView {
                    subscribers: upsert(g.subscribers, message.subscriber, no_activations(), recorder(e.time)),
                    ..g
                };
                match message.publication {
                    None => {},
                    Some(p) => lemma_edge_activation_inv(
                        g1,
                        Edge::PublisherSubscriberCommunication(p.publisher, message.subscriber),
                        e.time,
                        (e.time - p.publication_time.unwrap()) as i64,
                    ),
                }
            }
        },
        Event::RmwPublish { publisher } => {
            lemma_record_keeps_active(g.publishers, publisher, e.time);
            let g1 = GraphView {
                publishers: upsert(g.publishers, publisher, no_activations(), recorder(e.time)),
                ..g
            };
            match lookup(g.running, thread) {
                Some(r) => lemma_edge_activation_inv(
                    g1,
                    Edge::PublicationInCallback(publisher, r.callback),
                    e.time,
                    (e.time - r.start_time) as i64,
                ),
                None => {},
            }
        },
        Event::SpinWake { node } => {
            lemma_insert_keeps_unique(g.spin_wakes, node, e.time);
        },
        Event::SpinEnd { .. } => {},
        Event::Other => {},
    }
}

/// Two consecutive publications by one publisher record, as that publisher's
/// latest publication delay, the time between them.
pub proof fn law_publication_delay(g: GraphView, e1: FullEvent, e2: FullEvent, publisher: u64)
    requires
        graph_inv(g),
        e1.event == (Event::RmwPublish { publisher }),
        e2.event == (Event::RmwPublish { publisher }),
        accepts(g, e1),
        accepts(after_event(g, e1), e2),
    ensures
        activations_of(after_event(after_event(g, e1), e2).publishers, publisher).delays
            == activations_of(after_event(g, e1).publishers, publisher).delays.push(
            (e2.time - e1.time) as i64,
        ),
        activations_of(after_event(after_event(g, e1), e2).publishers, publisher).last == Some(
            e2.time,
        ),
{
    let g1 = after_event(g, e1);
    lemma_upsert_keeps_unique(g.publishers, publisher, no_activations(), recorder(e1.time));
    lemma_after_event_inv(g, e1);
    lemma_upsert_keeps_unique(g1.publishers, publisher, no_activations(), recorder(e2.time));
}

/// A callback's start followed by its end records, as its latest duration,
/// the time between them.
pub proof fn law_callback_duration(
    g: GraphView,
    e1: FullEvent,
    e2: FullEvent,
    started: CallbackInstance,
    ended: CallbackInstance,
)
    requires
        graph_inv(g),
        e1.event == Event::CallbackStart(started),
        e2.event == Event::CallbackEnd(ended),
        started.callback == ended.callback,
        accepts(g, e1),
        accepts(after_event(g, e1), e2),
    ensures
        callback_data_of(after_event(after_event(g, e1), e2), ended.callback).durations
            == callback_data_of(after_event(g, e1), ended.callback).durations.push(
            (e2.time - e1.time) as i64,
        ),
{
    let c = started.callback;
    let thread = ThreadId::spec_from_context(e1.context);
    let g0 = after_callback_registered(g, started, e1.time, thread);
    let g1 = after_event(g, e1);
    lemma_upsert_keeps_unique(g.callbacks, c, no_callback_activity(), callback_starter(e1.time));
    lemma_after_event_inv(g, e1);
    assert(g1.callbacks == g0.callbacks);
    lemma_upsert_keeps_unique(g1.callbacks, c, no_callback_activity(), callback_ender(e2.time));
}

/// A timer's callback started after its ROS node woke from spinning has, as
/// the latency of that invocation, the time since the wake-up.
pub proof fn law_timer_latency_since_wake(
    g: GraphView,
    e1: FullEvent,
    e2: FullEvent,
    node: u64,
    started: CallbackInstance,
    timer: u64,
)
    requires
        graph_inv(g),
        e1.event == (Event::SpinWake { node }),
        e2.event == Event::CallbackStart(started),
        started.trigger == (CallbackTrigger::Timer { timer, node: Some(node) }),
        accepts(after_event(g, e1), e2),
    ensures
        edge_data_of(
            after_event(after_event(g, e1), e2),
            Edge::TimerCallbackInvocation(timer, started.callback),
        ).latencies.last() == e2.time - e1.time,
{
    let g1 = after_event(g, e1);
    let thread = ThreadId::spec_from_context(e2.context);
    let g2 = after_callback_registered(g1, started, e2.time, thread);
    let g3 = after_timer_invocation(g2, timer, e2.time);
    let e = Edge::TimerCallbackInvocation(timer, started.callback);
    lemma_insert_keeps_unique(g.spin_wakes, node, e1.time);
    lemma_after_event_inv(g, e1);
    assert(g3.spin_wakes == g1.spin_wakes);
    assert(g3.edges == g1.edges);
    lemma_upsert_keeps_unique(
        g3.edges,
        e,
        no_edge_activity(),
        activator(e2.time, wake_latency(g3, node, e2.time) as i64),
    );
}

/// A service's callback started after its ROS node woke from spinning has,
/// as the latency of that invocation, the time since the wake-up.
pub proof fn law_service_latency_since_wake(
    g: GraphView,
    e1: FullEvent,
    e2: FullEvent,
    node: u64,
    started: CallbackInstance,
    service: u64,
)
    requires
        graph_inv(g),
        e1.event == (Event::SpinWake { node }),
        e2.event == Event::CallbackStart(started),
        started.trigger == (CallbackTrigger::Service { service, node: Some(node) }),
        accepts(after_event(g, e1), e2),
    ensures
        edge_data_of(
            after_event(after_event(g, e1), e2),
            Edge::ServiceCallbackInvocation(service, started.callback),
        ).latencies.last() == e2.time - e1.time,
{
    let g1 = after_event(g, e1);
    let thread = ThreadId::spec_from_context(e2.context);
    let g2 = after_callback_registered(g1, started, e2.time, thread);
    let e = Edge::ServiceCallbackInvocation(service, started.callback);
    lemma_insert_keeps_unique(g.spin_wakes, node, e1.time);
    lemma_after_event_inv(g, e1);
    assert(g2.spin_wakes == g1.spin_wakes);
    assert(g2.edges == g1.edges);
    lemma_upsert_keeps_unique(
        g2.edges,
        e,
        no_edge_activity(),
        activator(e2.time, wake_latency(g2, node, e2.time) as i64),
    );
}

/// A callback start appends to the edge into the callback exactly one
/// latency, after the ones it had: for a subscription message, the time
/// since the message was received; for a timer or a service, the time since
/// its ROS node last woke from spinning, or `LATENCY_INVALID` where the node
/// never woke.
pub proof fn law_callback_start_latency(g: GraphView, e: FullEvent, started: CallbackInstance)
    requires
        graph_inv(g),
        e.event == Event::CallbackStart(started),
        accepts(g, e),
    ensures
        ({
            let edge = edge_into_callback(started.callback, started.trigger);
            let expected: int = match started.trigger {
                CallbackTrigger::SubscriptionMessage(m) => e.time - m.rmw_receive_time.unwrap(),
                CallbackTrigger::Timer { timer, node } => match lookup(g.spin_wakes, node.unwrap()) {
                    Some(w) => e.time - w,
                    None => LATENCY_INVALID as int,
                },
                CallbackTrigger::Service { service, node } => match lookup(g.spin_wakes, node.unwrap()) {
                    Some(w) => e.time - w,
                    None => LATENCY_INVALID as int,
                },
            };
            edge_data_of(after_event(g, e), edge).latencies == edge_data_of(g, edge).latencies.push(
                expected as i64,
            ) && expected == expected as i64
        }),
{
    let thread = ThreadId::spec_from_context(e.context);
    let g2 = after_callback_registered(g, started, e.time, thread);
    let edge = edge_into_callback(started.callback, started.trigger);
    assert(g2.edges == g.edges);
    assert(g2.spin_wakes == g.spin_wakes);
    let g1 = match started.trigger {
        CallbackTrigger::Timer { timer, node } => after_timer_invocation(g2, timer, e.time),
        _ => g2,
    };
    let latency: i64 = match started.trigger {
        CallbackTrigger::SubscriptionMessage(m) => (e.time - m.rmw_receive_time.unwrap()) as i64,
        CallbackTrigger::Timer { timer, node } => wake_latency(g1, node.unwrap(), e.time) as i64,
        CallbackTrigger::Service { service, node } => wake_latency(g2, node.unwrap(), e.time) as i64,
    };
    assert(g1.edges == g.edges);
    assert(after_event(g, e) == after_edge_activation(g1, edge, e.time, latency));
    lemma_upsert_keeps_unique(g.edges, edge, no_edge_activity(), activator(e.time, latency));
}

/// A callback started, ended and started again records, as its latest
/// activation delay, the time between the two starts.
pub proof fn law_callback_activation_delay(
    g: GraphView,
    e1: FullEvent,
    e2: FullEvent,
    e3: FullEvent,
    first: CallbackInstance,
    second: CallbackInstance,
)
    requires
        graph_inv(g),
        e1.event == Event::CallbackStart(first),
        e2.event == Event::CallbackEnd(first),
        e3.event == Event::CallbackStart(second),
        first.callback == second.callback,
        accepts(g, e1),
        accepts(after_event(g, e1), e2),
        accepts(after_event(after_event(g, e1), e2), e3),
    ensures
        callback_data_of(after_event(after_event(after_event(g, e1), e2), e3), second.callback).activations.delays
            == callback_data_of(after_event(after_event(g, e1), e2), second.callback).activations.delays.push(
            (e3.time - e1.time) as i64,
        ),
{
    let c = first.callback;
    let g1 = after_event(g, e1);
    let g2 = after_event(g1, e2);
    let t1 = ThreadId::spec_from_context(e1.context);
    let t3 = ThreadId::spec_from_context(e3.context);
    lemma_upsert_keeps_unique(g.callbacks, c, no_callback_activity(), callback_starter(e1.time));
    lemma_after_event_inv(g, e1);
    assert(g1.callbacks == after_callback_registered(g, first, e1.time, t1).callbacks);
    lemma_upsert_keeps_unique(g1.callbacks, c, no_callback_activity(), callback_ender(e2.time));
    lemma_after_event_inv(g1, e2);
    lemma_upsert_keeps_unique(g2.callbacks, c, no_callback_activity(), callback_starter(e3.time));
    assert(after_event(g2, e3).callbacks == after_callback_registered(g2, second, e3.time, t3).callbacks);
}

/// A taken message matched to its publication records, as the latest
/// latency of the publisher-to-subscriber edge, the time from publication
/// to take.
pub proof fn law_message_latency(g: GraphView, e: FullEvent, message: SubscriptionMessage, publisher: u64, published: i64)
    requires
        graph_inv(g),
        e.event == (Event::RmwTake { taken: true, message }),
        message.publication == Some(PublicationMessage { publisher, publication_time: Some(published) }),
        accepts(g, e),
    ensures
        edge_data_of(after_event(g, e), Edge::PublisherSubscriberCommunication(publisher, message.subscriber)).latencies.last()
            == e.time - published,
{
    let g1 = GraphView { subscribers: upsert(g.subscribers, message.subscriber, no_activations(), recorder(e.time)), ..g };
    lemma_upsert_keeps_unique(
        g1.edges,
        Edge::PublisherSubscriberCommunication(publisher, message.subscriber),
        no_edge_activity(),
        activator(e.time, (e.time - published) as i64),
    );
}

} // verus!
