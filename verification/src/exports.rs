//! The per-element series that the dependency graph exports: activation
//! delays, publication delays, message delays, callback durations and
//! message latencies, and an overview of which series each element has.
use vstd::prelude::*;
use crate::argsv2::extract_args::AnalysisProperty;
use crate::assoc::{has_key, lemma_viewed_keys, lookup, viewed, AssocMap, MapKey};
use crate::decimal::{push_signed_decimal, signed_decimal};
use crate::dependency_graph::{Edge, Node, NodeType};
use crate::graph::DependencyGraph;
use crate::model::RosModel;

verus! {

/// An interface of a ROS node: its own name and the name of its node.
pub struct RosInterfaceCompleteName {
    pub interface: String,
    pub node: String,
}

/// A channel between two ROS nodes: their names and what it carries.
pub struct RosChannelCompleteName {
    pub source_node: String,
    pub destination_node: String,
    pub topic: String,
}

/// Which series an element of the graph has.
pub struct NodeOverviewExport {
    pub id: usize,
    pub element_type: NodeType,
    pub analyses: Vec<AnalysisProperty>,
}

/// The delays between consecutive activations of a timer or callback.
pub struct ActivationDelayExport {
    pub id: usize,
    pub name: RosInterfaceCompleteName,
    pub activation_delays: Vec<i64>,
}

/// The delays between consecutive publications of a publisher.
pub struct PublicationDelayExport {
    pub id: usize,
    pub name: RosInterfaceCompleteName,
    pub publication_delays: Vec<i64>,
}

/// The delays between consecutive messages taken by a subscriber.
pub struct MessagesDelayExport {
    pub id: usize,
    pub name: RosInterfaceCompleteName,
    pub messages_delays: Vec<i64>,
}

/// The execution durations of a callback.
pub struct CallbackDurationExport {
    pub id: usize,
    pub name: RosInterfaceCompleteName,
    pub callback_durations: Vec<i64>,
}

/// The latencies of the activations of an edge.
pub struct MessageLatencyExport {
    pub id: usize,
    pub name: RosChannelCompleteName,
    pub messages_latencies: Vec<i64>,
}

/// A pair of vertex identifiers: the ends of an edge.
#[derive(Debug, Clone, Copy, PartialEq, Eq, Structural)]
pub struct NodePair {
    pub source: usize,
    pub target: usize,
}

impl MapKey for NodePair {
    fn same_key(&self, other: &Self) -> (r: bool) {
        *self == *other
    }
}

/// The identifier a map gives a key it has.
pub open spec fn id_of<K: MapKey>(ids: &AssocMap<K, usize>, k: K) -> usize {
    lookup(ids.entries(), k).unwrap()
}

/// `"Timer(<period>)"`, with a period of zero where unknown.
pub open spec fn timer_interface(model: &RosModel, k: u64) -> Seq<char> {
    "Timer("@ + signed_decimal(
        match lookup(model.timers.entries(), k).unwrap().period {
            Some(p) => p as int,
            None => 0,
        },
    ) + ")"@
}

/// `"Publisher(<topic>)"`.
pub open spec fn publisher_interface(model: &RosModel, k: u64) -> Seq<char> {
    "Publisher("@ + lookup(model.publishers.entries(), k).unwrap().topic@ + ")"@
}

/// `"Subscriber(<topic>)"`.
pub open spec fn subscriber_interface(model: &RosModel, k: u64) -> Seq<char> {
    "Subscriber("@ + lookup(model.subscribers.entries(), k).unwrap().topic@ + ")"@
}

/// `"Callback(<caller>)"`, where a subscription caller is named by its
/// quoted topic; empty where the caller is unknown.
pub open spec fn callback_activation_interface(model: &RosModel, k: u64) -> Seq<char> {
    "Callback("@ + match lookup(model.callbacks.entries(), k).unwrap().caller {
        Some(c) => match c.subscription_topic {
            Some(t) => "Subscriber(\""@ + t@ + "\")"@,
            None => c.text@,
        },
        None => Seq::empty(),
    } + ")"@
}

/// `"Callback(<caller>)"`, empty where the caller is unknown.
pub open spec fn callback_duration_interface(model: &RosModel, k: u64) -> Seq<char> {
    "Callback("@ + match lookup(model.callbacks.entries(), k).unwrap().caller {
        Some(c) => c.text@,
        None => Seq::empty(),
    } + ")"@
}

/// Every key of `entries`, as the vertex `kind` makes of it, has an
/// identifier and is described by the model.
pub open spec fn covered<V>(
    node_ids: &AssocMap<Node, usize>,
    model: &RosModel,
    entries: Seq<(u64, V)>,
    kind: spec_fn(u64) -> Node,
) -> bool {
    forall|i: int|
        0 <= i < entries.len() ==> has_key(node_ids.entries(), kind(#[trigger] entries[i].0))
            && model.describes(kind(entries[i].0))
}

pub open spec fn as_timer() -> spec_fn(u64) -> Node {
    |k: u64| Node::Timer(k)
}

pub open spec fn as_callback() -> spec_fn(u64) -> Node {
    |k: u64| Node::Callback(k)
}

pub open spec fn as_publisher() -> spec_fn(u64) -> Node {
    |k: u64| Node::Publisher(k)
}

pub open spec fn as_subscriber() -> spec_fn(u64) -> Node {
    |k: u64| Node::Subscriber(k)
}

fn text_between(prefix: &str, middle: &String, suffix: &str) -> (s: String)
    ensures
        s@ == prefix@ + middle@ + suffix@,
{
    let mut s = prefix.to_owned();
    s.append(middle.as_str());
    s.append(suffix);
    s
}

fn timer_interface_text(model: &RosModel, k: u64) -> (s: String)
    requires
        model.wf(),
        model.describes(Node::Timer(k)),
    ensures
        s@ == timer_interface(model, k),
{
    let period: i64 = match model.timers.get(&k).unwrap().period {
        Some(p) => p,
        None => 0,
    };
    let mut s = "Timer(".to_owned();
    push_signed_decimal(&mut s, period);
    s.append(")");
    s
}

fn callback_activation_text(model: &RosModel, k: u64) -> (s: String)
    requires
        model.wf(),
        model.describes(Node::Callback(k)),
    ensures
        s@ == callback_activation_interface(model, k),
{
    let mut s = "Callback(".to_owned();
    match &model.callbacks.get(&k).unwrap().caller {
        Some(c) => match &c.subscription_topic {
            Some(t) => {
                s.append("Subscriber(\"");
                s.append(t.as_str());
                s.append("\")");
            },
            None => {
                s.append(c.text.as_str());
            },
        },
        None => {},
    }
    s.append(")");
    proof {
        assert(s@ =~= callback_activation_interface(model, k));
    }
    s
}

fn callback_duration_text(model: &RosModel, k: u64) -> (s: String)
    requires
        model.wf(),
        model.describes(Node::Callback(k)),
    ensures
        s@ == callback_duration_interface(model, k),
{
    let mut s = "Callback(".to_owned();
    match &model.callbacks.get(&k).unwrap().caller {
        Some(c) => {
            s.append(c.text.as_str());
        },
        None => {},
    }
    s.append(")");
    proof {
        assert(s@ =~= callback_duration_interface(model, k));
    }
    s
}

impl ActivationDelayExport {
    pub open spec fn is(&self, id: usize, interface: Seq<char>, node: Seq<char>, delays: Seq<i64>) -> bool {
        &&& self.id == id
        &&& self.name.interface@ == interface
        &&& self.name.node@ == node
        &&& self.activation_delays@ == delays
    }
}

impl PublicationDelayExport {
    pub open spec fn is(&self, id: usize, interface: Seq<char>, node: Seq<char>, delays: Seq<i64>) -> bool {
        &&& self.id == id
        &&& self.name.interface@ == interface
        &&& self.name.node@ == node
        &&& self.publication_delays@ == delays
    }
}

impl MessagesDelayExport {
    pub open spec fn is(&self, id: usize, interface: Seq<char>, node: Seq<char>, delays: Seq<i64>) -> bool {
        &&& self.id == id
        &&& self.name.interface@ == interface
        &&& self.name.node@ == node
        &&& self.messages_delays@ == delays
    }
}

impl CallbackDurationExport {
    pub open spec fn is(&self, id: usize, interface: Seq<char>, node: Seq<char>, durations: Seq<i64>) -> bool {
        &&& self.id == id
        &&& self.name.interface@ == interface
        &&& self.name.node@ == node
        &&& self.callback_durations@ == durations
    }
}

/// The text an edge carries: that of its source, or, for an edge leaving a
/// callback, that of its target.
pub open spec fn edge_topic(model: &RosModel, e: Edge) -> Seq<char> {
    match e.spec_source() {
        Node::Callback(_) => model.carried_text(e.spec_target()),
        _ => model.carried_text(e.spec_source()),
    }
}

/// Both ends of every edge have identifiers and are described by the model,
/// and every pair of end identifiers has an edge identifier.
pub open spec fn edges_covered(
    node_ids: &AssocMap<Node, usize>,
    edge_ids: &AssocMap<NodePair, usize>,
    model: &RosModel,
    edges: Seq<(Edge, crate::dependency_graph::EdgeDataView)>,
) -> bool {
    forall|i: int|
        0 <= i < edges.len() ==> {
            let e = #[trigger] edges[i].0;
            &&& has_key(node_ids.entries(), e.spec_source())
            &&& has_key(node_ids.entries(), e.spec_target())
            &&& model.describes(e.spec_source())
            &&& model.describes(e.spec_target())
            &&& has_key(
                edge_ids.entries(),
                NodePair {
                    source: id_of(node_ids, e.spec_source()),
                    target: id_of(node_ids, e.spec_target()),
                },
            )
        }
}

impl MessageLatencyExport {
    pub open spec fn is(
        &self,
        id: usize,
        source_node: Seq<char>,
        destination_node: Seq<char>,
        topic: Seq<char>,
        latencies: Seq<i64>,
    ) -> bool {
        &&& self.id == id
        &&& self.name.source_node@ == source_node
        &&& self.name.destination_node@ == destination_node
        &&& self.name.topic@ == topic
        &&& self.messages_latencies@ == latencies
    }
}

/// The series an element of each kind has.
pub open spec fn analyses_of(t: NodeType) -> Seq<AnalysisProperty> {
    match t {
        NodeType::Publisher => seq![AnalysisProperty::PublicationDelay],
        NodeType::Subscriber => seq![AnalysisProperty::MessageDelay],
        NodeType::Callback => seq![AnalysisProperty::ActivationDelay, AnalysisProperty::CallbackDuration],
        NodeType::Timer => seq![AnalysisProperty::ActivationDelay],
        NodeType::Service => Seq::empty(),
    }
}

fn analyses_for(t: NodeType) -> (v: Vec<AnalysisProperty>)
    ensures
        v@ == analyses_of(t),
{
    let mut v: Vec<AnalysisProperty> = Vec::new();
    match t {
        NodeType::Publisher => {
            v.push(AnalysisProperty::PublicationDelay);
        },
        NodeType::Subscriber => {
            v.push(AnalysisProperty::MessageDelay);
        },
        NodeType::Callback => {
            v.push(AnalysisProperty::ActivationDelay);
            v.push(AnalysisProperty::CallbackDuration);
        },
        NodeType::Timer => {
            v.push(AnalysisProperty::ActivationDelay);
        },
        NodeType::Service => {},
    }
    assert(v@ =~= analyses_of(t));
    v
}

impl NodeOverviewExport {
    pub open spec fn is(&self, id: usize, t: NodeType) -> bool {
        &&& self.id == id
        &&& self.element_type == t
        &&& self.analyses@ == analyses_of(t)
    }
}

/// Every key of `entries` as the vertex `kind` makes of it has an identifier.
pub open spec fn ids_cover<V>(node_ids: &AssocMap<Node, usize>, entries: Seq<(u64, V)>, kind: spec_fn(u64) -> Node) -> bool {
    forall|i: int| 0 <= i < entries.len() ==> has_key(node_ids.entries(), kind(#[trigger] entries[i].0))
}

/// The vertex of the entity `k` of kind `t`.
pub open spec fn vertex_of(t: NodeType, k: u64) -> Node {
    match t {
        NodeType::Publisher => Node::Publisher(k),
        NodeType::Subscriber => Node::Subscriber(k),
        NodeType::Service => Node::Service(k),
        NodeType::Timer => Node::Timer(k),
        NodeType::Callback => Node::Callback(k),
    }
}

/// Appends an overview of each element of a table.
fn push_overviews<V>(r: &mut Vec<NodeOverviewExport>, keys: &AssocMap<u64, V>, node_ids: &AssocMap<Node, usize>, t: NodeType)
    requires
        keys.wf(),
        node_ids.wf(),
        forall|i: int| 0 <= i < keys.entries().len() ==> has_key(node_ids.entries(), vertex_of(t, #[trigger] keys.entries()[i].0)),
    ensures
        final(r)@.len() == old(r)@.len() + keys.entries().len(),
        forall|j: int| 0 <= j < old(r)@.len() ==> #[trigger] final(r)@[j] == old(r)@[j],
        forall|j: int|
            0 <= j < keys.entries().len() ==> (#[trigger] final(r)@[old(r)@.len() + j]).is(
                id_of(node_ids, vertex_of(t, keys.entries()[j].0)),
                t,
            ),
{
    let ghost r0 = r@;
    let mut i: usize = 0;
    while i < keys.len()
        invariant
            keys.wf(),
            node_ids.wf(),
            forall|i: int| 0 <= i < keys.entries().len() ==> has_key(node_ids.entries(), vertex_of(t, #[trigger] keys.entries()[i].0)),
            i <= keys.entries().len(),
            r@.len() == r0.len() + i,
            forall|j: int| 0 <= j < r0.len() ==> #[trigger] r@[j] == r0[j],
            forall|j: int|
                0 <= j < i ==> (#[trigger] r@[r0.len() + j]).is(id_of(node_ids, vertex_of(t, keys.entries()[j].0)), t),
        decreases keys.entries().len() - i,
    {
        let k = keys.key_at(i);
        let node = match t {
            NodeType::Publisher => Node::Publisher(k),
            NodeType::Subscriber => Node::Subscriber(k),
            NodeType::Service => Node::Service(k),
            NodeType::Timer => Node::Timer(k),
            NodeType::Callback => Node::Callback(k),
        };
        assert(node == vertex_of(t, keys.entries()[i as int].0));
        let id = *node_ids.get(&node).unwrap();
        r.push(NodeOverviewExport { id, element_type: t, analyses: analyses_for(t) });
        proof {
            assert(r@[r0.len() + i as int] == r@[r@.len() - 1]);
        }
        i = i + 1;
    }
}

impl DependencyGraph {
    /// The activation delays of every timer, then of every callback, each
    /// named by its interface and its ROS node.
    pub fn activation_delays(&self, model: &RosModel, node_ids: &AssocMap<Node, usize>) -> (r: Vec<ActivationDelayExport>)
        requires
            self.wf(),
            model.wf(),
            node_ids.wf(),
            covered(node_ids, model, self@.timers, as_timer()),
            covered(node_ids, model, self@.callbacks, as_callback()),
        ensures
            r@.len() == self@.timers.len() + self@.callbacks.len(),
            forall|i: int|
                0 <= i < self@.timers.len() ==> (#[trigger] r@[i]).is(
                    id_of(node_ids, Node::Timer(self@.timers[i].0)),
                    timer_interface(model, self@.timers[i].0),
                    model.node_name_or_empty(model.node_of(Node::Timer(self@.timers[i].0))),
                    self@.timers[i].1.delays,
                ),
            forall|i: int|
                0 <= i < self@.callbacks.len() ==> (#[trigger] r@[self@.timers.len() + i]).is(
                    id_of(node_ids, Node::Callback(self@.callbacks[i].0)),
                    callback_activation_interface(model, self@.callbacks[i].0),
                    model.node_name_or_empty(model.node_of(Node::Callback(self@.callbacks[i].0))),
                    self@.callbacks[i].1.activations.delays,
                ),
    {
        let timers = self.timers_table();
        let callbacks = self.callbacks_table();
        let mut r: Vec<ActivationDelayExport> = Vec::new();
        let mut i: usize = 0;
        while i < timers.len()
            invariant
                timers.wf(),
                model.wf(),
                node_ids.wf(),
                viewed(timers.entries()) == self@.timers,
                covered(node_ids, model, self@.timers, as_timer()),
                i <= self@.timers.len(),
                r@.len() == i,
                forall|j: int|
                    0 <= j < i ==> (#[trigger] r@[j]).is(
                        id_of(node_ids, Node::Timer(self@.timers[j].0)),
                        timer_interface(model, self@.timers[j].0),
                        model.node_name_or_empty(model.node_of(Node::Timer(self@.timers[j].0))),
                        self@.timers[j].1.delays,
                    ),
            decreases self@.timers.len() - i,
        {
            let k = timers.key_at(i);
            assert(self@.timers[i as int].0 == k);
            let node = Node::Timer(k);
            let id = *node_ids.get(&node).unwrap();
            let interface = timer_interface_text(model, k);
            let node_name = model.name_or_empty(model.entity_node(node));
            let delays = timers.value_at(i).delays();
            r.push(ActivationDelayExport {
                id,
                name: RosInterfaceCompleteName { interface, node: node_name },
                activation_delays: delays,
            });
            i = i + 1;
        }
        let n_timers = i;
        let mut i: usize = 0;
        while i < callbacks.len()
            invariant
                callbacks.wf(),
                model.wf(),
                node_ids.wf(),
                viewed(callbacks.entries()) == self@.callbacks,
                covered(node_ids, model, self@.callbacks, as_callback()),
                n_timers == self@.timers.len(),
                i <= self@.callbacks.len(),
                r@.len() == n_timers + i,
                forall|j: int|
                    0 <= j < n_timers ==> (#[trigger] r@[j]).is(
                        id_of(node_ids, Node::Timer(self@.timers[j].0)),
                        timer_interface(model, self@.timers[j].0),
                        model.node_name_or_empty(model.node_of(Node::Timer(self@.timers[j].0))),
                        self@.timers[j].1.delays,
                    ),
                forall|j: int|
                    0 <= j < i ==> (#[trigger] r@[n_timers + j]).is(
                        id_of(node_ids, Node::Callback(self@.callbacks[j].0)),
                        callback_activation_interface(model, self@.callbacks[j].0),
                        model.node_name_or_empty(model.node_of(Node::Callback(self@.callbacks[j].0))),
                        self@.callbacks[j].1.activations.delays,
                    ),
            decreases self@.callbacks.len() - i,
        {
            let k = callbacks.key_at(i);
            assert(self@.callbacks[i as int].0 == k);
            let node = Node::Callback(k);
            let id = *node_ids.get(&node).unwrap();
            let interface = callback_activation_text(model, k);
            let node_name = model.name_or_empty(model.entity_node(node));
            let delays = callbacks.value_at(i).activation_delays();
            r.push(ActivationDelayExport {
                id,
                name: RosInterfaceCompleteName { interface, node: node_name },
                activation_delays: delays,
            });
            proof {
                assert(r@[n_timers + i as int] == r@[r@.len() - 1]);
            }
            i = i + 1;
        }
        r
    }

    /// The publication delays of every publisher, named by its topic and
    /// its ROS node.
    pub fn publication_delays(&self, model: &RosModel, node_ids: &AssocMap<Node, usize>) -> (r: Vec<PublicationDelayExport>)
        requires
            self.wf(),
            model.wf(),
            node_ids.wf(),
            covered(node_ids, model, self@.publishers, as_publisher()),
        ensures
            r@.len() == self@.publishers.len(),
            forall|i: int|
                0 <= i < self@.publishers.len() ==> (#[trigger] r@[i]).is(
                    id_of(node_ids, Node::Publisher(self@.publishers[i].0)),
                    publisher_interface(model, self@.publishers[i].0),
                    model.node_name_or_empty(model.node_of(Node::Publisher(self@.publishers[i].0))),
                    self@.publishers[i].1.delays,
                ),
    {
        let table = self.publishers_table();
        let mut r: Vec<PublicationDelayExport> = Vec::new();
        let mut i: usize = 0;
        while i < table.len()
            invariant
                table.wf(),
                model.wf(),
                node_ids.wf(),
                viewed(table.entries()) == self@.publishers,
                covered(node_ids, model, self@.publishers, as_publisher()),
                i <= self@.publishers.len(),
                r@.len() == i,
                forall|j: int|
                    0 <= j < i ==> (#[trigger] r@[j]).is(
                        id_of(node_ids, Node::Publisher(self@.publishers[j].0)),
                        publisher_interface(model, self@.publishers[j].0),
                        model.node_name_or_empty(model.node_of(Node::Publisher(self@.publishers[j].0))),
                        self@.publishers[j].1.delays,
                    ),
            decreases self@.publishers.len() - i,
        {
            let k = table.key_at(i);
            assert(self@.publishers[i as int].0 == k);
            let node = Node::Publisher(k);
            let id = *node_ids.get(&node).unwrap();
            let interface = text_between("Publisher(", &model.publishers.get(&k).unwrap().topic, ")");
            let node_name = model.name_or_empty(model.entity_node(node));
            r.push(PublicationDelayExport {
                id,
                name: RosInterfaceCompleteName { interface, node: node_name },
                publication_delays: table.value_at(i).delays(),
            });
            i = i + 1;
        }
        r
    }

    /// The delays between the messages taken by every subscriber, named by
    /// its topic and its ROS node.
    pub fn message_delays(&self, model: &RosModel, node_ids: &AssocMap<Node, usize>) -> (r: Vec<MessagesDelayExport>)
        requires
            self.wf(),
            model.wf(),
            node_ids.wf(),
            covered(node_ids, model, self@.subscribers, as_subscriber()),
        ensures
            r@.len() == self@.subscribers.len(),
            forall|i: int|
                0 <= i < self@.subscribers.len() ==> (#[trigger] r@[i]).is(
                    id_of(node_ids, Node::Subscriber(self@.subscribers[i].0)),
                    subscriber_interface(model, self@.subscribers[i].0),
                    model.node_name_or_empty(model.node_of(Node::Subscriber(self@.subscribers[i].0))),
                    self@.subscribers[i].1.delays,
                ),
    {
        let table = self.subscribers_table();
        let mut r: Vec<MessagesDelayExport> = Vec::new();
        let mut i: usize = 0;
        while i < table.len()
            invariant
                table.wf(),
                model.wf(),
                node_ids.wf(),
                viewed(table.entries()) == self@.subscribers,
                covered(node_ids, model, self@.subscribers, as_subscriber()),
                i <= self@.subscribers.len(),
                r@.len() == i,
                forall|j: int|
                    0 <= j < i ==> (#[trigger] r@[j]).is(
                        id_of(node_ids, Node::Subscriber(self@.subscribers[j].0)),
                        subscriber_interface(model, self@.subscribers[j].0),
                        model.node_name_or_empty(model.node_of(Node::Subscriber(self@.subscribers[j].0))),
                        self@.subscribers[j].1.delays,
                    ),
            decreases self@.subscribers.len() - i,
        {
            let k = table.key_at(i);
            assert(self@.subscribers[i as int].0 == k);
            let node = Node::Subscriber(k);
            let id = *node_ids.get(&node).unwrap();
            let interface = text_between("Subscriber(", &model.subscribers.get(&k).unwrap().topic, ")");
            let node_name = model.name_or_empty(model.entity_node(node));
            r.push(MessagesDelayExport {
                id,
                name: RosInterfaceCompleteName { interface, node: node_name },
                messages_delays: table.value_at(i).delays(),
            });
            i = i + 1;
        }
        r
    }

    /// The execution durations of every callback, named by its caller and
    /// its ROS node.
    pub fn callback_durations(&self, model: &RosModel, node_ids: &AssocMap<Node, usize>) -> (r: Vec<CallbackDurationExport>)
        requires
            self.wf(),
            model.wf(),
            node_ids.wf(),
            covered(node_ids, model, self@.callbacks, as_callback()),
        ensures
            r@.len() == self@.callbacks.len(),
            forall|i: int|
                0 <= i < self@.callbacks.len() ==> (#[trigger] r@[i]).is(
                    id_of(node_ids, Node::Callback(self@.callbacks[i].0)),
                    callback_duration_interface(model, self@.callbacks[i].0),
                    model.node_name_or_empty(model.node_of(Node::Callback(self@.callbacks[i].0))),
                    self@.callbacks[i].1.durations,
                ),
    {
        let table = self.callbacks_table();
        let mut r: Vec<CallbackDurationExport> = Vec::new();
        let mut i: usize = 0;
        while i < table.len()
            invariant
                table.wf(),
                model.wf(),
                node_ids.wf(),
                viewed(table.entries()) == self@.callbacks,
                covered(node_ids, model, self@.callbacks, as_callback()),
                i <= self@.callbacks.len(),
                r@.len() == i,
                forall|j: int|
                    0 <= j < i ==> (#[trigger] r@[j]).is(
                        id_of(node_ids, Node::Callback(self@.callbacks[j].0)),
                        callback_duration_interface(model, self@.callbacks[j].0),
                        model.node_name_or_empty(model.node_of(Node::Callback(self@.callbacks[j].0))),
                        self@.callbacks[j].1.durations,
                    ),
            decreases self@.callbacks.len() - i,
        {
            let k = table.key_at(i);
            assert(self@.callbacks[i as int].0 == k);
            let node = Node::Callback(k);
            let id = *node_ids.get(&node).unwrap();
            let interface = callback_duration_text(model, k);
            let node_name = model.name_or_empty(model.entity_node(node));
            r.push(CallbackDurationExport {
                id,
                name: RosInterfaceCompleteName { interface, node: node_name },
                callback_durations: table.value_at(i).durations(),
            });
            i = i + 1;
        }
        r
    }

    /// The latencies of every edge, named by the ROS nodes of its ends and
    /// the text it carries, and identified by the identifier of the pair of
    /// its ends.
    pub fn message_latencies(
        &self,
        model: &RosModel,
        node_ids: &AssocMap<Node, usize>,
        edge_ids: &AssocMap<NodePair, usize>,
    ) -> (r: Vec<MessageLatencyExport>)
        requires
            self.wf(),
            model.wf(),
            node_ids.wf(),
            edge_ids.wf(),
            edges_covered(node_ids, edge_ids, model, self@.edges),
        ensures
            r@.len() == self@.edges.len(),
            forall|i: int|
                0 <= i < self@.edges.len() ==> (#[trigger] r@[i]).is(
                    id_of(
                        edge_ids,
                        NodePair {
                            source: id_of(node_ids, self@.edges[i].0.spec_source()),
                            target: id_of(node_ids, self@.edges[i].0.spec_target()),
                        },
                    ),
                    model.node_name_shown(model.node_of(self@.edges[i].0.spec_source())),
                    model.node_name_shown(model.node_of(self@.edges[i].0.spec_target())),
                    edge_topic(model, self@.edges[i].0),
                    self@.edges[i].1.latencies,
                ),
    {
        let table = self.edges_table();
        let mut r: Vec<MessageLatencyExport> = Vec::new();
        let mut i: usize = 0;
        while i < table.len()
            invariant
                table.wf(),
                model.wf(),
                node_ids.wf(),
                edge_ids.wf(),
                viewed(table.entries()) == self@.edges,
                edges_covered(node_ids, edge_ids, model, self@.edges),
                i <= self@.edges.len(),
                r@.len() == i,
                forall|j: int|
                    0 <= j < i ==> (#[trigger] r@[j]).is(
                        id_of(
                            edge_ids,
                            NodePair {
                                source: id_of(node_ids, self@.edges[j].0.spec_source()),
                                target: id_of(node_ids, self@.edges[j].0.spec_target()),
                            },
                        ),
                        model.node_name_shown(model.node_of(self@.edges[j].0.spec_source())),
                        model.node_name_shown(model.node_of(self@.edges[j].0.spec_target())),
                        edge_topic(model, self@.edges[j].0),
                        self@.edges[j].1.latencies,
                    ),
            decreases self@.edges.len() - i,
        {
            let e = table.key_at(i);
            assert(self@.edges[i as int].0 == e);
            let source = e.source();
            let target = e.target();
            let source_node = model.name_shown(model.entity_node(source));
            let destination_node = model.name_shown(model.entity_node(target));
            let topic = match source {
                Node::Callback(_) => model.text_carried(target),
                _ => model.text_carried(source),
            };
            let from = *node_ids.get(&source).unwrap();
            let to = *node_ids.get(&target).unwrap();
            let id = *edge_ids.get(&NodePair { source: from, target: to }).unwrap();
            r.push(MessageLatencyExport {
                id,
                name: RosChannelCompleteName { source_node, destination_node, topic },
                messages_latencies: table.value_at(i).latencies(),
            });
            i = i + 1;
        }
        r
    }

    /// An overview of every publisher, subscriber, callback and timer, in
    /// that order, with the series each has.
    pub fn node_overview(&self, node_ids: &AssocMap<Node, usize>) -> (r: Vec<NodeOverviewExport>)
        requires
            self.wf(),
            node_ids.wf(),
            ids_cover(node_ids, self@.publishers, as_publisher()),
            ids_cover(node_ids, self@.subscribers, as_subscriber()),
            ids_cover(node_ids, self@.callbacks, as_callback()),
            ids_cover(node_ids, self@.timers, as_timer()),
        ensures
            r@.len() == self@.publishers.len() + self@.subscribers.len() + self@.callbacks.len()
                + self@.timers.len(),
            forall|i: int|
                0 <= i < self@.publishers.len() ==> (#[trigger] r@[i]).is(
                    id_of(node_ids, Node::Publisher(self@.publishers[i].0)),
                    NodeType::Publisher,
                ),
            forall|i: int|
                0 <= i < self@.subscribers.len() ==> (#[trigger] r@[self@.publishers.len() + i]).is(
                    id_of(node_ids, Node::Subscriber(self@.subscribers[i].0)),
                    NodeType::Subscriber,
                ),
            forall|i: int|
                0 <= i < self@.callbacks.len() ==> (#[trigger] r@[self@.publishers.len()
                    + self@.subscribers.len() + i]).is(
                    id_of(node_ids, Node::Callback(self@.callbacks[i].0)),
                    NodeType::Callback,
                ),
            forall|i: int|
                0 <= i < self@.timers.len() ==> (#[trigger] r@[self@.publishers.len()
                    + self@.subscribers.len() + self@.callbacks.len() + i]).is(
                    id_of(node_ids, Node::Timer(self@.timers[i].0)),
                    NodeType::Timer,
                ),
    {
        let mut r: Vec<NodeOverviewExport> = Vec::new();
        let publishers = self.publishers_table();
        let subscribers = self.subscribers_table();
        let callbacks = self.callbacks_table();
        let timers = self.timers_table();
        proof {
            lemma_viewed_keys(publishers.entries());
            lemma_viewed_keys(subscribers.entries());
            lemma_viewed_keys(callbacks.entries());
            lemma_viewed_keys(timers.entries());
        }
        proof {
            assert forall|i: int| 0 <= i < publishers.entries().len() implies has_key(node_ids.entries(), vertex_of(NodeType::Publisher, #[trigger] publishers.entries()[i].0)) by {
                assert(self@.publishers[i].0 == publishers.entries()[i].0);
            }
            assert forall|i: int| 0 <= i < subscribers.entries().len() implies has_key(node_ids.entries(), vertex_of(NodeType::Subscriber, #[trigger] subscribers.entries()[i].0)) by {
                assert(self@.subscribers[i].0 == subscribers.entries()[i].0);
            }
            assert forall|i: int| 0 <= i < callbacks.entries().len() implies has_key(node_ids.entries(), vertex_of(NodeType::Callback, #[trigger] callbacks.entries()[i].0)) by {
                assert(self@.callbacks[i].0 == callbacks.entries()[i].0);
            }
            assert forall|i: int| 0 <= i < timers.entries().len() implies has_key(node_ids.entries(), vertex_of(NodeType::Timer, #[trigger] timers.entries()[i].0)) by {
                assert(self@.timers[i].0 == timers.entries()[i].0);
            }
        }
        push_overviews(&mut r, publishers, node_ids, NodeType::Publisher);
        let ghost r1 = r@;
        push_overviews(&mut r, subscribers, node_ids, NodeType::Subscriber);
        let ghost r2 = r@;
        push_overviews(&mut r, callbacks, node_ids, NodeType::Callback);
        let ghost r3 = r@;
        push_overviews(&mut r, timers, node_ids, NodeType::Timer);
        proof {
            assert forall|i: int| 0 <= i < self@.publishers.len() implies (#[trigger] r@[i]).is(
                id_of(node_ids, Node::Publisher(self@.publishers[i].0)),
                NodeType::Publisher,
            ) by {
                assert(r@[i] == r3[i]);
                assert(r3[i] == r2[i]);
                assert(r2[i] == r1[i]);
                assert(r1[0 + i] == r1[i]);
            }
            assert forall|i: int| 0 <= i < self@.subscribers.len() implies (#[trigger] r@[self@.publishers.len() + i]).is(
                id_of(node_ids, Node::Subscriber(self@.subscribers[i].0)),
                NodeType::Subscriber,
            ) by {
                let j = self@.publishers.len() + i;
                assert(r@[j] == r3[j]);
                assert(r3[j] == r2[j]);
            }
            assert forall|i: int| 0 <= i < self@.callbacks.len() implies (#[trigger] r@[self@.publishers.len()
                + self@.subscribers.len() + i]).is(
                id_of(node_ids, Node::Callback(self@.callbacks[i].0)),
                NodeType::Callback,
            ) by {
                let j = self@.publishers.len() + self@.subscribers.len() + i;
                assert(r@[j] == r3[j]);
            }
        }
        r
    }

}

/// Whether every key of a table, as the vertex of kind `t`, has an
/// identifier and is described by the model.
fn table_covered<V: View>(
    keys: &AssocMap<u64, V>,
    node_ids: &AssocMap<Node, usize>,
    model: &RosModel,
    t: NodeType,
) -> (r: bool)
    requires
        keys.wf(),
        node_ids.wf(),
        model.wf(),
    ensures
        r == forall|i: int|
            0 <= i < keys.entries().len() ==> has_key(node_ids.entries(), vertex_of(t, #[trigger] keys.entries()[i].0))
                && model.describes(vertex_of(t, keys.entries()[i].0)),
{
    let mut i: usize = 0;
    while i < keys.len()
        invariant
            keys.wf(),
            node_ids.wf(),
            model.wf(),
            i <= keys.entries().len(),
            forall|j: int|
                0 <= j < i ==> has_key(node_ids.entries(), vertex_of(t, #[trigger] keys.entries()[j].0))
                    && model.describes(vertex_of(t, keys.entries()[j].0)),
        decreases keys.entries().len() - i,
    {
        let k = keys.key_at(i);
        let v = match t {
            NodeType::Publisher => Node::Publisher(k),
            NodeType::Subscriber => Node::Subscriber(k),
            NodeType::Service => Node::Service(k),
            NodeType::Timer => Node::Timer(k),
            NodeType::Callback => Node::Callback(k),
        };
        if node_ids.find(&v).is_none() || !model.has_entity(v) {
            assert(keys.entries()[i as int].0 == k);
            return false;
        }
        i = i + 1;
    }
    true
}

impl DependencyGraph {
    /// Whether every publisher, subscriber, timer and callback has an
    /// identifier and is described by the model: what the per-element
    /// exports need.
    pub fn elements_exportable(&self, model: &RosModel, node_ids: &AssocMap<Node, usize>) -> (r: bool)
        requires
            self.wf(),
            model.wf(),
            node_ids.wf(),
        ensures
            r == (covered(node_ids, model, self@.publishers, as_publisher()) && covered(
                node_ids,
                model,
                self@.subscribers,
                as_subscriber(),
            ) && covered(node_ids, model, self@.timers, as_timer()) && covered(
                node_ids,
                model,
                self@.callbacks,
                as_callback(),
            )),
    {
        let publishers = self.publishers_table();
        let subscribers = self.subscribers_table();
        let timers = self.timers_table();
        let callbacks = self.callbacks_table();
        proof {
            lemma_viewed_keys(publishers.entries());
            lemma_viewed_keys(subscribers.entries());
            lemma_viewed_keys(timers.entries());
            lemma_viewed_keys(callbacks.entries());
        }
        let p = table_covered(publishers, node_ids, model, NodeType::Publisher);
        let s = table_covered(subscribers, node_ids, model, NodeType::Subscriber);
        let t = table_covered(timers, node_ids, model, NodeType::Timer);
        let c = table_covered(callbacks, node_ids, model, NodeType::Callback);
        proof {
            assert(p == covered(node_ids, model, self@.publishers, as_publisher())) by {
                if !p {
                    let i = choose|i: int| 0 <= i < publishers.entries().len() && !(has_key(node_ids.entries(), vertex_of(NodeType::Publisher, #[trigger] publishers.entries()[i].0))
                        && model.describes(vertex_of(NodeType::Publisher, publishers.entries()[i].0)));
                    assert(self@.publishers[i].0 == publishers.entries()[i].0);
                }
            }
            assert(s == covered(node_ids, model, self@.subscribers, as_subscriber())) by {
                if !s {
                    let i = choose|i: int| 0 <= i < subscribers.entries().len() && !(has_key(node_ids.entries(), vertex_of(NodeType::Subscriber, #[trigger] subscribers.entries()[i].0))
                        && model.describes(vertex_of(NodeType::Subscriber, subscribers.entries()[i].0)));
                    assert(self@.subscribers[i].0 == subscribers.entries()[i].0);
                }
            }
            assert(t == covered(node_ids, model, self@.timers, as_timer())) by {
                if !t {
                    let i = choose|i: int| 0 <= i < timers.entries().len() && !(has_key(node_ids.entries(), vertex_of(NodeType::Timer, #[trigger] timers.entries()[i].0))
                        && model.describes(vertex_of(NodeType::Timer, timers.entries()[i].0)));
                    assert(self@.timers[i].0 == timers.entries()[i].0);
                }
            }
            assert(c == covered(node_ids, model, self@.callbacks, as_callback())) by {
                if !c {
                    let i = choose|i: int| 0 <= i < callbacks.entries().len() && !(has_key(node_ids.entries(), vertex_of(NodeType::Callback, #[trigger] callbacks.entries()[i].0))
                        && model.describes(vertex_of(NodeType::Callback, callbacks.entries()[i].0)));
                    assert(self@.callbacks[i].0 == callbacks.entries()[i].0);
                }
            }
        }
        p && s && t && c
    }

    /// Whether both ends of every edge have identifiers and are described
    /// by the model, and every pair of ends has an edge identifier: what
    /// the latency export needs.
    pub fn edges_exportable(
        &self,
        model: &RosModel,
        node_ids: &AssocMap<Node, usize>,
        edge_ids: &AssocMap<NodePair, usize>,
    ) -> (r: bool)
        requires
            self.wf(),
            model.wf(),
            node_ids.wf(),
            edge_ids.wf(),
        ensures
            r == edges_covered(node_ids, edge_ids, model, self@.edges),
    {
        let table = self.edges_table();
        let mut i: usize = 0;
        while i < table.len()
            invariant
                table.wf(),
                model.wf(),
                node_ids.wf(),
                edge_ids.wf(),
                viewed(table.entries()) == self@.edges,
                i <= self@.edges.len(),
                forall|j: int|
                    0 <= j < i ==> {
                        let e = #[trigger] self@.edges[j].0;
                        &&& has_key(node_ids.entries(), e.spec_source())
                        &&& has_key(node_ids.entries(), e.spec_target())
                        &&& model.describes(e.spec_source())
                        &&& model.describes(e.spec_target())
                        &&& has_key(
                            edge_ids.entries(),
                            NodePair {
                                source: id_of(node_ids, e.spec_source()),
                                target: id_of(node_ids, e.spec_target()),
                            },
                        )
                    },
            decreases self@.edges.len() - i,
        {
            let e = table.key_at(i);
            assert(self@.edges[i as int].0 == e);
            let source = e.source();
            let target = e.target();
            if !model.has_entity(source) || !model.has_entity(target) {
                return false;
            }
            match (node_ids.get(&source), node_ids.get(&target)) {
                (Some(from), Some(to)) => {
                    if edge_ids.find(&NodePair { source: *from, target: *to }).is_none() {
                        return false;
                    }
                },
                _ => {
                    return false;
                },
            }
            i = i + 1;
        }
        true
    }
}

} // verus!
