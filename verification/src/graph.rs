//! The dependency graph analysis: the tables it keeps and how each trace
//! event updates them.
use vstd::prelude::*;
use crate::analysis::EventAnalysis;
use crate::assoc::{
    all_values,
    keys_unique, has_key, index_of, insert, lemma_index_of_unique, lemma_viewed_keys, lemma_viewed_push,
    lemma_viewed_update, lookup, remove, upsert, viewed, AssocMap,
};
use crate::dependency_graph::{
    edge_consistent, edge_counts_ok, edge_into_callback, law_edge_to_callback,
    accepts, callback_data_of, edge_data_of, activate, activations_of, activator, after_callback_end, after_callback_registered,
    after_callback_start, after_edge_activation, after_edge_to_callback, after_event,
    after_publication, after_rmw_take, after_timer_invocation, callback_end_ok, callback_ender,
    callback_start_ok, callback_starter, edge_to_callback_ok, empty_graph, end_ok, fits, graph_inv,
    lemma_after_event_inv, lemma_callback_end_inv, lemma_callback_registered_inv,
    lemma_edge_activation_inv, lemma_edge_to_callback_inv, lemma_record_keeps_active,
    lemma_timer_invocation_inv, no_activations, no_callback_activity, no_edge_activity,
    publication_ok, record, record_ok, recorder, rmw_take_ok, start_ok, wake_latency,
    ActivationRecord, CallbackInstance, CallbackNode, CallbackNodeView, CallbackTrigger, Context,
    Edge, EdgeData, EdgeDataView, Event, FullEvent, GraphView, RunningCallback,
    SubscriptionMessage, ThreadId, LATENCY_INVALID,
};

verus! {

/// The dependency graph built from the events of a trace.
pub struct DependencyGraph {
    ros_nodes: Vec<u64>,
    edges: AssocMap<Edge, EdgeData>,
    publisher_nodes: AssocMap<u64, ActivationRecord>,
    subscriber_nodes: AssocMap<u64, ActivationRecord>,
    timer_nodes: AssocMap<u64, ActivationRecord>,
    callback_nodes: AssocMap<u64, CallbackNode>,
    last_spin_wake_up_time_for_node: AssocMap<u64, i64>,
    running_callbacks: AssocMap<ThreadId, RunningCallback>,
}

impl View for DependencyGraph {
    type V = GraphView;

    closed spec fn view(&self) -> GraphView {
        GraphView {
            ros_nodes: self.ros_nodes@,
            edges: viewed(self.edges.entries()),
            publishers: viewed(self.publisher_nodes.entries()),
            subscribers: viewed(self.subscriber_nodes.entries()),
            timers: viewed(self.timer_nodes.entries()),
            callbacks: viewed(self.callback_nodes.entries()),
            spin_wakes: self.last_spin_wake_up_time_for_node.entries(),
            running: self.running_callbacks.entries(),
        }
    }
}

/// Records an activation at `t` of the entity `k` of an activation table.
fn record_in(m: &mut AssocMap<u64, ActivationRecord>, k: u64, t: i64)
    requires
        old(m).wf(),
        record_ok(activations_of(viewed(old(m).entries()), k), t),
    ensures
        final(m).wf(),
        viewed(final(m).entries()) == upsert(
            viewed(old(m).entries()),
            k,
            no_activations(),
            recorder(t),
        ),
{
    let ghost e0 = m.entries();
    proof {
        m.lemma_keys_unique();
        lemma_viewed_keys(e0);
    }
    match m.find(&k) {
        Some(i) => {
            proof {
                lemma_index_of_unique(viewed(e0), i as int);
            }
            let mut r = m.replace_at(i, ActivationRecord::new());
            r.record(t);
            let _ = m.replace_at(i, r);
            proof {
                assert(m.entries() =~= e0.update(i as int, (k, r)));
                lemma_viewed_update(e0, i as int, k, r);
            }
        },
        None => {
            let mut r = ActivationRecord::new();
            r.record(t);
            m.push(k, r);
            proof {
                lemma_viewed_push(e0, k, r);
            }
        },
    }
}

/// Records an activation of edge `e` at `t` with the given latency.
fn activate_edge(m: &mut AssocMap<Edge, EdgeData>, e: Edge, t: i64, latency: i64)
    requires
        old(m).wf(),
        match lookup(viewed(old(m).entries()), e) {
            Some(d) => record_ok(d.activations, t),
            None => true,
        },
    ensures
        final(m).wf(),
        viewed(final(m).entries()) == upsert(
            viewed(old(m).entries()),
            e,
            no_edge_activity(),
            activator(t, latency),
        ),
{
    let ghost e0 = m.entries();
    proof {
        m.lemma_keys_unique();
        lemma_viewed_keys(e0);
    }
    match m.find(&e) {
        Some(i) => {
            proof {
                lemma_index_of_unique(viewed(e0), i as int);
            }
            let mut d = m.replace_at(i, EdgeData::new());
            d.activate(t, latency);
            let _ = m.replace_at(i, d);
            proof {
                assert(m.entries() =~= e0.update(i as int, (e, d)));
                lemma_viewed_update(e0, i as int, e, d);
            }
        },
        None => {
            let mut d = EdgeData::new();
            d.activate(t, latency);
            m.push(e, d);
            proof {
                lemma_viewed_push(e0, e, d);
            }
        },
    }
}

/// Records a start at `t` of callback `c`.
fn start_in(m: &mut AssocMap<u64, CallbackNode>, c: u64, t: i64)
    requires
        old(m).wf(),
        match lookup(viewed(old(m).entries()), c) {
            Some(d) => start_ok(d, t),
            None => true,
        },
    ensures
        final(m).wf(),
        viewed(final(m).entries()) == upsert(
            viewed(old(m).entries()),
            c,
            no_callback_activity(),
            callback_starter(t),
        ),
{
    let ghost e0 = m.entries();
    proof {
        m.lemma_keys_unique();
        lemma_viewed_keys(e0);
    }
    match m.find(&c) {
        Some(i) => {
            proof {
                lemma_index_of_unique(viewed(e0), i as int);
            }
            let mut d = m.replace_at(i, CallbackNode::new());
            d.start(t);
            let _ = m.replace_at(i, d);
            proof {
                assert(m.entries() =~= e0.update(i as int, (c, d)));
                lemma_viewed_update(e0, i as int, c, d);
            }
        },
        None => {
            let mut d = CallbackNode::new();
            d.start(t);
            m.push(c, d);
            proof {
                lemma_viewed_push(e0, c, d);
            }
        },
    }
}

/// Records an end at `t` of callback `c`, which has a record.
fn end_in(m: &mut AssocMap<u64, CallbackNode>, c: u64, t: i64)
    requires
        old(m).wf(),
        has_key(viewed(old(m).entries()), c),
        end_ok(lookup(viewed(old(m).entries()), c).unwrap(), t),
    ensures
        final(m).wf(),
        viewed(final(m).entries()) == upsert(
            viewed(old(m).entries()),
            c,
            no_callback_activity(),
            callback_ender(t),
        ),
{
    let ghost e0 = m.entries();
    proof {
        m.lemma_keys_unique();
        lemma_viewed_keys(e0);
    }
    let i = m.find(&c).unwrap();
    proof {
        lemma_index_of_unique(viewed(e0), i as int);
    }
    let mut d = m.replace_at(i, CallbackNode::new());
    d.end(t);
    let _ = m.replace_at(i, d);
    proof {
        assert(m.entries() =~= e0.update(i as int, (c, d)));
        lemma_viewed_update(e0, i as int, c, d);
    }
}


/// Whether an activation at `t` after one at `last` has a delay that fits.
fn delay_fits(last: Option<i64>, t: i64) -> (r: bool)
    ensures
        r == match last {
            Some(p) => fits(t - p),
            None => true,
        },
{
    match last {
        Some(p) => t.checked_sub(p).is_some(),
        None => true,
    }
}

/// Whether an activation at `t` of entity `k` can be recorded.
fn can_record(m: &AssocMap<u64, ActivationRecord>, k: u64, t: i64) -> (r: bool)
    requires
        m.wf(),
    ensures
        r == record_ok(activations_of(viewed(m.entries()), k), t),
{
    proof {
        m.lemma_keys_unique();
        lemma_viewed_keys(m.entries());
    }
    match m.find(&k) {
        Some(i) => {
            proof {
                lemma_index_of_unique(viewed(m.entries()), i as int);
            }
            delay_fits(m.value_at(i).last(), t)
        },
        None => true,
    }
}

impl DependencyGraph {
    /// The graph's own invariant: every table is well formed and the graph
    /// invariant holds of what it holds.
    pub closed spec fn wf(&self) -> bool {
        &&& self.edges.wf()
        &&& self.publisher_nodes.wf()
        &&& self.subscriber_nodes.wf()
        &&& self.timer_nodes.wf()
        &&& self.callback_nodes.wf()
        &&& self.last_spin_wake_up_time_for_node.wf()
        &&& self.running_callbacks.wf()
        &&& graph_inv(self@)
    }

    /// An empty graph.
    pub fn new() -> (g: Self)
        ensures
            g.wf(),
            g@ == empty_graph(),
    {
        let g = DependencyGraph {
            ros_nodes: Vec::new(),
            edges: AssocMap::new(),
            publisher_nodes: AssocMap::new(),
            subscriber_nodes: AssocMap::new(),
            timer_nodes: AssocMap::new(),
            callback_nodes: AssocMap::new(),
            last_spin_wake_up_time_for_node: AssocMap::new(),
            running_callbacks: AssocMap::new(),
        };
        assert(g@.edges =~= Seq::empty());
        assert(g@.publishers =~= Seq::empty());
        assert(g@.subscribers =~= Seq::empty());
        assert(g@.timers =~= Seq::empty());
        assert(g@.callbacks =~= Seq::empty());
        g
    }

    fn add_ros_node(&mut self, node: u64)
        requires
            old(self).wf(),
        ensures
            final(self).wf(),
            final(self)@ == (GraphView { ros_nodes: old(self)@.ros_nodes.push(node), ..old(self)@ }),
    {
        self.ros_nodes.push(node);
    }

    fn process_timer_invocation(&mut self, timer: u64, t: i64)
        requires
            old(self).wf(),
            record_ok(activations_of(old(self)@.timers, timer), t),
        ensures
            final(self).wf(),
            final(self)@ == after_timer_invocation(old(self)@, timer, t),
    {
        proof {
            lemma_timer_invocation_inv(self@, timer, t);
        }
        record_in(&mut self.timer_nodes, timer, t);
    }

    /// Every table of a well-formed graph has unique keys.
    pub proof fn lemma_tables_unique(&self)
        requires
            self.wf(),
        ensures
            keys_unique(self@.edges),
            keys_unique(self@.publishers),
            keys_unique(self@.subscribers),
            keys_unique(self@.timers),
            keys_unique(self@.callbacks),
            keys_unique(self@.spin_wakes),
            keys_unique(self@.running),
    {
    }

    /// The edges with what each recorded.
    pub fn edges_table(&self) -> (t: &AssocMap<Edge, EdgeData>)
        requires
            self.wf(),
        ensures
            t.wf(),
            viewed(t.entries()) == self@.edges,
    {
        &self.edges
    }

    /// The publishers with their publication delays.
    pub fn publishers_table(&self) -> (t: &AssocMap<u64, ActivationRecord>)
        requires
            self.wf(),
        ensures
            t.wf(),
            viewed(t.entries()) == self@.publishers,
    {
        &self.publisher_nodes
    }

    /// The subscribers with the delays between their takes.
    pub fn subscribers_table(&self) -> (t: &AssocMap<u64, ActivationRecord>)
        requires
            self.wf(),
        ensures
            t.wf(),
            viewed(t.entries()) == self@.subscribers,
    {
        &self.subscriber_nodes
    }

    /// The timers with their activation delays.
    pub fn timers_table(&self) -> (t: &AssocMap<u64, ActivationRecord>)
        requires
            self.wf(),
        ensures
            t.wf(),
            viewed(t.entries()) == self@.timers,
    {
        &self.timer_nodes
    }

    /// The callbacks with their activation delays and durations.
    pub fn callbacks_table(&self) -> (t: &AssocMap<u64, CallbackNode>)
        requires
            self.wf(),
        ensures
            t.wf(),
            viewed(t.entries()) == self@.callbacks,
    {
        &self.callback_nodes
    }

    /// The ROS nodes announced in the trace, in order.
    pub fn ros_nodes(&self) -> (n: &Vec<u64>)
        ensures
            n@ == self@.ros_nodes,
    {
        &self.ros_nodes
    }

    /// The latency of a timer or service callback at `t` in ROS node `node`.
    fn wake_latency_at(&self, node: u64, t: i64) -> (l: i64)
        requires
            self.wf(),
            fits(wake_latency(self@, node, t)),
        ensures
            l == wake_latency(self@, node, t),
    {
        match self.last_spin_wake_up_time_for_node.find(&node) {
            Some(i) => {
                proof {
                    self.last_spin_wake_up_time_for_node.lemma_keys_unique();
                    lemma_index_of_unique(self.last_spin_wake_up_time_for_node.entries(), i as int);
                }
                let w = *self.last_spin_wake_up_time_for_node.value_at(i);
                t - w
            },
            None => LATENCY_INVALID,
        }
    }

    /// The callback running on `thread`, if any.
    fn running_on(&self, thread: &ThreadId) -> (r: Option<RunningCallback>)
        requires
            self.wf(),
        ensures
            r == lookup(self@.running, *thread),
    {
        match self.running_callbacks.find(thread) {
            Some(i) => {
                proof {
                    self.running_callbacks.lemma_keys_unique();
                    lemma_index_of_unique(self.running_callbacks.entries(), i as int);
                }
                Some(*self.running_callbacks.value_at(i))
            },
            None => None,
        }
    }

    fn activate(&mut self, e: Edge, t: i64, latency: i64)
        requires
            old(self).wf(),
            match lookup(old(self)@.edges, e) {
                Some(d) => record_ok(d.activations, t),
                None => true,
            },
        ensures
            final(self).wf(),
            final(self)@ == after_edge_activation(old(self)@, e, t, latency),
    {
        proof {
            lemma_edge_activation_inv(self@, e, t, latency);
        }
        activate_edge(&mut self.edges, e, t, latency);
    }

    fn process_edge_to_callback(&mut self, callback: u64, trigger: &CallbackTrigger, t: i64)
        requires
            old(self).wf(),
            edge_to_callback_ok(old(self)@, callback, *trigger, t),
        ensures
            final(self).wf(),
            final(self)@ == after_edge_to_callback(old(self)@, callback, *trigger, t),
            all_values(final(self)@.edges, |d: EdgeDataView| edge_counts_ok(d)),
            edge_data_of(final(self)@, edge_into_callback(callback, *trigger)).latencies.len()
                == edge_data_of(old(self)@, edge_into_callback(callback, *trigger)).latencies.len() + 1,
            forall|o: Edge|
                o != edge_into_callback(callback, *trigger) ==> edge_data_of(final(self)@, o)
                    == edge_data_of(old(self)@, o),
    {
        proof {
            let g = old(self)@;
            assert forall|i: int| 0 <= i < g.edges.len() implies edge_counts_ok(#[trigger] g.edges[i].1) by {
                assert(edge_consistent(g.edges[i].1));
            }
            law_edge_to_callback(g, callback, *trigger, t);
        }
        match *trigger {
            CallbackTrigger::SubscriptionMessage(message) => {
                let receive_time = message.rmw_receive_time.unwrap();
                self.activate(
                    Edge::SubscriberCallbackInvocation(message.subscriber, callback),
                    t,
                    t - receive_time,
                );
            },
            CallbackTrigger::Timer { timer, node } => {
                // The timer's invocation is the callback's invocation.
                self.process_timer_invocation(timer, t);
                let latency = self.wake_latency_at(node.unwrap(), t);
                self.activate(Edge::TimerCallbackInvocation(timer, callback), t, latency);
            },
            CallbackTrigger::Service { service, node } => {
                let latency = self.wake_latency_at(node.unwrap(), t);
                self.activate(Edge::ServiceCallbackInvocation(service, callback), t, latency);
            },
        }
    }

    fn process_callback_start(&mut self, instance: &CallbackInstance, t: i64, context: &Context)
        requires
            old(self).wf(),
            callback_start_ok(old(self)@, *instance, t, ThreadId::spec_from_context(*context)),
        ensures
            final(self).wf(),
            final(self)@ == after_callback_start(
                old(self)@,
                *instance,
                t,
                ThreadId::spec_from_context(*context),
            ),
    {
        let thread = ThreadId::from(context);
        proof {
            lemma_callback_registered_inv(self@, *instance, t, thread);
        }
        self.running_callbacks.push(
            thread,
            RunningCallback {
                instance: instance.id,
                callback: instance.callback,
                start_time: instance.start_time,
            },
        );
        start_in(&mut self.callback_nodes, instance.callback, t);
        self.process_edge_to_callback(instance.callback, &instance.trigger, t);
    }

    fn process_callback_end(&mut self, instance: &CallbackInstance, t: i64, context: &Context)
        requires
            old(self).wf(),
            callback_end_ok(old(self)@, *instance, t, ThreadId::spec_from_context(*context)),
        ensures
            final(self).wf(),
            final(self)@ == after_callback_end(
                old(self)@,
                *instance,
                t,
                ThreadId::spec_from_context(*context),
            ),
    {
        let thread = ThreadId::from(context);
        proof {
            lemma_callback_end_inv(self@, *instance, t, thread);
        }
        match self.running_callbacks.find(&thread) {
            Some(i) => {
                let _ = self.running_callbacks.remove_at(i);
            },
            None => {},
        }
        end_in(&mut self.callback_nodes, instance.callback, t);
    }

    fn process_rmw_take(&mut self, taken: bool, message: &SubscriptionMessage, t: i64)
        requires
            old(self).wf(),
            rmw_take_ok(old(self)@, taken, *message, t),
        ensures
            final(self).wf(),
            final(self)@ == after_rmw_take(old(self)@, taken, *message, t),
    {
        if !taken {
            // Only taken messages count.
            return;
        }
        proof {
            lemma_record_keeps_active(self@.subscribers, message.subscriber, t);
        }
        record_in(&mut self.subscriber_nodes, message.subscriber, t);
        match message.publication {
            // A message that cannot be matched to its publication adds no edge.
            None => {},
            Some(publication) => {
                let published = publication.publication_time.unwrap();
                self.activate(
                    Edge::PublisherSubscriberCommunication(publication.publisher, message.subscriber),
                    t,
                    t - published,
                );
            },
        }
    }

    fn process_publication(&mut self, publisher: u64, t: i64, context: &Context)
        requires
            old(self).wf(),
            publication_ok(old(self)@, publisher, t, ThreadId::spec_from_context(*context)),
        ensures
            final(self).wf(),
            final(self)@ == after_publication(
                old(self)@,
                publisher,
                t,
                ThreadId::spec_from_context(*context),
            ),
    {
        let thread = ThreadId::from(context);
        proof {
            lemma_record_keeps_active(self@.publishers, publisher, t);
        }
        record_in(&mut self.publisher_nodes, publisher, t);
        match self.running_on(&thread) {
            Some(running) => {
                self.activate(
                    Edge::PublicationInCallback(publisher, running.callback),
                    t,
                    t - running.start_time,
                );
            },
            None => {},
        }
    }


    /// Whether an activation of `e` at `t` can be recorded.
    fn edge_can_activate(&self, e: Edge, t: i64) -> (r: bool)
        requires
            self.wf(),
        ensures
            r == record_ok(edge_data_of(self@, e).activations, t),
    {
        proof {
            self.edges.lemma_keys_unique();
            lemma_viewed_keys(self.edges.entries());
        }
        match self.edges.find(&e) {
            Some(i) => {
                proof {
                    lemma_index_of_unique(viewed(self.edges.entries()), i as int);
                }
                delay_fits(self.edges.value_at(i).last_activation(), t)
            },
            None => true,
        }
    }

    /// Whether a start of `callback` at `t` can be recorded.
    fn callback_can_start(&self, callback: u64, t: i64) -> (r: bool)
        requires
            self.wf(),
        ensures
            r == record_ok(callback_data_of(self@, callback).activations, t),
    {
        proof {
            self.callback_nodes.lemma_keys_unique();
            lemma_viewed_keys(self.callback_nodes.entries());
        }
        match self.callback_nodes.find(&callback) {
            Some(i) => {
                proof {
                    lemma_index_of_unique(viewed(self.callback_nodes.entries()), i as int);
                }
                delay_fits(self.callback_nodes.value_at(i).last_start(), t)
            },
            None => true,
        }
    }

    /// Whether the latency since the last wake-up of `node` fits.
    fn wake_latency_fits(&self, node: u64, t: i64) -> (r: bool)
        requires
            self.wf(),
        ensures
            r == fits(wake_latency(self@, node, t)),
    {
        match self.last_spin_wake_up_time_for_node.find(&node) {
            Some(i) => {
                proof {
                    self.last_spin_wake_up_time_for_node.lemma_keys_unique();
                    lemma_index_of_unique(self.last_spin_wake_up_time_for_node.entries(), i as int);
                }
                t.checked_sub(*self.last_spin_wake_up_time_for_node.value_at(i)).is_some()
            },
            None => true,
        }
    }

    fn edge_to_callback_acceptable(&self, callback: u64, trigger: &CallbackTrigger, t: i64) -> (r: bool)
        requires
            self.wf(),
        ensures
            r == edge_to_callback_ok(self@, callback, *trigger, t),
    {
        match *trigger {
            CallbackTrigger::SubscriptionMessage(message) => match message.rmw_receive_time {
                Some(received) => self.edge_can_activate(
                    Edge::SubscriberCallbackInvocation(message.subscriber, callback),
                    t,
                ) && t.checked_sub(received).is_some(),
                None => false,
            },
            CallbackTrigger::Timer { timer, node } => match node {
                Some(n) => can_record(&self.timer_nodes, timer, t) && self.edge_can_activate(
                    Edge::TimerCallbackInvocation(timer, callback),
                    t,
                ) && self.wake_latency_fits(n, t),
                None => false,
            },
            CallbackTrigger::Service { service, node } => match node {
                Some(n) => self.edge_can_activate(
                    Edge::ServiceCallbackInvocation(service, callback),
                    t,
                ) && self.wake_latency_fits(n, t),
                None => false,
            },
        }
    }

    /// Whether the graph accepts `event` in its present state (see `accepts`).
    pub fn accepts_event(&self, event: &FullEvent) -> (r: bool)
        requires
            self.wf(),
        ensures
            r == accepts(self@, *event),
    {
        let t = event.time;
        let thread = ThreadId::from(&event.context);
        match event.event {
            Event::CallbackStart(instance) => {
                self.running_callbacks.find(&thread).is_none() && self.callback_can_start(
                    instance.callback,
                    t,
                ) && self.edge_to_callback_acceptable(instance.callback, &instance.trigger, t)
            },
            Event::CallbackEnd(instance) => {
                let running_matches = match self.running_on(&thread) {
                    Some(running) => running.instance == instance.id,
                    None => true,
                };
                proof {
                    self.callback_nodes.lemma_keys_unique();
                    lemma_viewed_keys(self.callback_nodes.entries());
                }
                match self.callback_nodes.find(&instance.callback) {
                    Some(i) => {
                        proof {
                            lemma_index_of_unique(viewed(self.callback_nodes.entries()), i as int);
                        }
                        running_matches && match self.callback_nodes.value_at(i).last_start() {
                            Some(start) => t.checked_sub(start).is_some(),
                            None => false,
                        }
                    },
                    None => false,
                }
            },
            Event::RmwTake { taken, message } => {
                if !taken {
                    true
                } else {
                    can_record(&self.subscriber_nodes, message.subscriber, t) && match message.publication {
                        None => true,
                        Some(publication) => match publication.publication_time {
                            Some(published) => self.edge_can_activate(
                                Edge::PublisherSubscriberCommunication(
                                    publication.publisher,
                                    message.subscriber,
                                ),
                                t,
                            ) && t.checked_sub(published).is_some(),
                            None => false,
                        },
                    }
                }
            },
            Event::RmwPublish { publisher } => {
                can_record(&self.publisher_nodes, publisher, t) && match self.running_on(&thread) {
                    Some(running) => self.edge_can_activate(
                        Edge::PublicationInCallback(publisher, running.callback),
                        t,
                    ) && t.checked_sub(running.start_time).is_some(),
                    None => true,
                }
            },
            _ => true,
        }
    }

}

impl EventAnalysis for DependencyGraph {
    open spec fn ready(&self) -> bool {
        self.wf()
    }

    open spec fn can_process(&self, event: FullEvent) -> bool {
        accepts(self@, event)
    }

    /// Empties the graph.
    fn initialize(&mut self)
        ensures
            final(self)@ == empty_graph(),
    {
        *self = DependencyGraph::new();
    }

    /// Updates the graph with one event of the trace.
    fn process_event(&mut self, event: &FullEvent)
        ensures
            final(self)@ == after_event(old(self)@, *event),
    {
        let t = event.time;
        match event.event {
            Event::RclNodeInit { node } => {
                self.add_ros_node(node);
            },
            Event::CallbackStart(instance) => {
                self.process_callback_start(&instance, t, &event.context);
            },
            Event::CallbackEnd(instance) => {
                self.process_callback_end(&instance, t, &event.context);
            },
            Event::RmwTake { taken, message } => {
                self.process_rmw_take(taken, &message, t);
            },
            Event::RmwPublish { publisher } => {
                self.process_publication(publisher, t, &event.context);
            },
            Event::SpinWake { node } => {
                proof {
                    lemma_after_event_inv(self@, *event);
                }
                self.last_spin_wake_up_time_for_node.insert(node, t);
            },
            Event::SpinEnd { .. } => {},
            Event::Other => {},
        }
    }

    /// Forgets the callbacks still running when the trace ends.
    fn finalize(&mut self)
        ensures
            final(self)@ == (GraphView { running: Seq::empty(), ..old(self)@ }),
    {
        self.running_callbacks.clear();
    }
}

} // verus!
