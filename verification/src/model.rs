//! What the trace tells of the entities that the dependency graph refers to
//! by number: their topics, periods, callers and ROS nodes, and the texts
//! that name them in exports.
use vstd::prelude::*;
use crate::assoc::{has_key, lookup, AssocMap};
use crate::decimal::{push_signed_decimal, signed_decimal};
use crate::dependency_graph::Node;

verus! {

/// A publisher or a subscriber: its topic and its ROS node, where known.
pub struct TopicEntity {
    pub topic: String,
    pub node: Option<u64>,
}

/// A timer: its period in nanoseconds, that period written as a duration
/// (as the trace's display of durations writes it; meaningful where the
/// period is known), and its ROS node, where known.
pub struct TimerEntity {
    pub period: Option<i64>,
    pub period_text: String,
    pub node: Option<u64>,
}

/// A service: its name and its ROS node, where known.
pub struct ServiceEntity {
    pub name: String,
    pub node: Option<u64>,
}

/// What invokes a callback: the text that names it and, for a subscription,
/// the topic subscribed to.
pub struct CallbackCaller {
    pub text: String,
    pub subscription_topic: Option<String>,
}

/// A callback: its caller and its ROS node, where known.
pub struct CallbackEntity {
    pub caller: Option<CallbackCaller>,
    pub node: Option<u64>,
}

/// The entities of a traced ROS system, by number.
pub struct RosModel {
    pub publishers: AssocMap<u64, TopicEntity>,
    pub subscribers: AssocMap<u64, TopicEntity>,
    pub services: AssocMap<u64, ServiceEntity>,
    pub timers: AssocMap<u64, TimerEntity>,
    pub callbacks: AssocMap<u64, CallbackEntity>,
    /// The full names of the ROS nodes whose name is known.
    pub nodes: AssocMap<u64, String>,
    /// The text shown in place of a name or period that is not known.
    pub unknown: String,
}

impl RosModel {
    pub open spec fn wf(&self) -> bool {
        &&& self.publishers.wf()
        &&& self.subscribers.wf()
        &&& self.services.wf()
        &&& self.timers.wf()
        &&& self.callbacks.wf()
        &&& self.nodes.wf()
    }

    /// The model describes the entity behind a vertex of the graph.
    pub open spec fn describes(&self, n: Node) -> bool {
        match n {
            Node::Publisher(k) => has_key(self.publishers.entries(), k),
            Node::Subscriber(k) => has_key(self.subscribers.entries(), k),
            Node::Service(k) => has_key(self.services.entries(), k),
            Node::Timer(k) => has_key(self.timers.entries(), k),
            Node::Callback(k) => has_key(self.callbacks.entries(), k),
        }
    }

    /// The period of a timer vertex is known (other vertices need nothing).
    pub open spec fn period_known(&self, n: Node) -> bool {
        match n {
            Node::Timer(k) => lookup(self.timers.entries(), k).unwrap().period is Some,
            _ => true,
        }
    }

    /// The ROS node of the entity behind a vertex, where known.
    pub open spec fn node_of(&self, n: Node) -> Option<u64> {
        match n {
            Node::Publisher(k) => lookup(self.publishers.entries(), k).unwrap().node,
            Node::Subscriber(k) => lookup(self.subscribers.entries(), k).unwrap().node,
            Node::Service(k) => lookup(self.services.entries(), k).unwrap().node,
            Node::Timer(k) => lookup(self.timers.entries(), k).unwrap().node,
            Node::Callback(k) => lookup(self.callbacks.entries(), k).unwrap().node,
        }
    }

    /// The full name of a ROS node, where known.
    pub open spec fn node_name(&self, node: Option<u64>) -> Option<Seq<char>> {
        match node {
            Some(n) => match lookup(self.nodes.entries(), n) {
                Some(s) => Some(s@),
                None => None,
            },
            None => None,
        }
    }

    /// The name of a ROS node, empty where unknown.
    pub open spec fn node_name_or_empty(&self, node: Option<u64>) -> Seq<char> {
        match self.node_name(node) {
            Some(s) => s,
            None => Seq::empty(),
        }
    }

    /// The name of a ROS node as shown, the unknown text where unknown.
    pub open spec fn node_name_shown(&self, node: Option<u64>) -> Seq<char> {
        match self.node_name(node) {
            Some(s) => s,
            None => self.unknown@,
        }
    }

    /// The text of what a vertex carries: a topic, a service's name, a
    /// timer's period; for a callback, nothing.
    pub open spec fn carried_text(&self, n: Node) -> Seq<char> {
        match n {
            Node::Publisher(k) => lookup(self.publishers.entries(), k).unwrap().topic@,
            Node::Subscriber(k) => lookup(self.subscribers.entries(), k).unwrap().topic@,
            Node::Service(k) => lookup(self.services.entries(), k).unwrap().name@,
            Node::Timer(k) => match lookup(self.timers.entries(), k).unwrap().period {
                Some(p) => signed_decimal(p as int),
                None => self.unknown@,
            },
            Node::Callback(_) => Seq::empty(),
        }
    }

    /// Whether the model describes the entity behind a vertex.
    pub fn has_entity(&self, n: Node) -> (r: bool)
        requires
            self.wf(),
        ensures
            r == self.describes(n),
    {
        proof {
            self.publishers.lemma_keys_unique();
        }
        match n {
            Node::Publisher(k) => self.publishers.find(&k).is_some(),
            Node::Subscriber(k) => self.subscribers.find(&k).is_some(),
            Node::Service(k) => self.services.find(&k).is_some(),
            Node::Timer(k) => self.timers.find(&k).is_some(),
            Node::Callback(k) => self.callbacks.find(&k).is_some(),
        }
    }

    /// The ROS node of the entity behind a vertex the model describes.
    pub fn entity_node(&self, n: Node) -> (r: Option<u64>)
        requires
            self.wf(),
            self.describes(n),
        ensures
            r == self.node_of(n),
    {
        match n {
            Node::Publisher(k) => self.publishers.get(&k).unwrap().node,
            Node::Subscriber(k) => self.subscribers.get(&k).unwrap().node,
            Node::Service(k) => self.services.get(&k).unwrap().node,
            Node::Timer(k) => self.timers.get(&k).unwrap().node,
            Node::Callback(k) => self.callbacks.get(&k).unwrap().node,
        }
    }

    /// The name of a ROS node, empty where unknown.
    pub fn name_or_empty(&self, node: Option<u64>) -> (s: String)
        requires
            self.wf(),
        ensures
            s@ == self.node_name_or_empty(node),
    {
        match node {
            Some(n) => match self.nodes.get(&n) {
                Some(name) => name.clone(),
                None => String::new(),
            },
            None => String::new(),
        }
    }

    /// The name of a ROS node as shown.
    pub fn name_shown(&self, node: Option<u64>) -> (s: String)
        requires
            self.wf(),
        ensures
            s@ == self.node_name_shown(node),
    {
        match node {
            Some(n) => match self.nodes.get(&n) {
                Some(name) => name.clone(),
                None => self.unknown.clone(),
            },
            None => self.unknown.clone(),
        }
    }

    /// The text of what a vertex the model describes carries.
    pub fn text_carried(&self, n: Node) -> (s: String)
        requires
            self.wf(),
            self.describes(n),
        ensures
            s@ == self.carried_text(n),
    {
        match n {
            Node::Publisher(k) => self.publishers.get(&k).unwrap().topic.clone(),
            Node::Subscriber(k) => self.subscribers.get(&k).unwrap().topic.clone(),
            Node::Service(k) => self.services.get(&k).unwrap().name.clone(),
            Node::Timer(k) => match self.timers.get(&k).unwrap().period {
                Some(p) => {
                    let mut s = String::new();
                    push_signed_decimal(&mut s, p);
                    assert(s@ =~= signed_decimal(p as int));
                    s
                },
                None => self.unknown.clone(),
            },
            Node::Callback(_) => String::new(),
        }
    }
}

} // verus!
