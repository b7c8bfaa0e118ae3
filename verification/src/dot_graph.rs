//! The dependency graph laid out for drawing: every vertex numbered, grouped
//! by ROS node, and every edge with its sorted latencies and the latency
//! range its thickness is scaled to. The drawing keeps whether colouring by
//! latency was asked for, but this library holds no colour gradient, so no
//! colour is ever drawn.
use vstd::prelude::*;
use crate::assoc::{
    has_key, index_of, insert, keys_unique, lemma_index_of_unique, lemma_insert_keeps_unique,
    lemma_upsert_keeps_unique, lemma_viewed_keys, lookup, upsert, viewed, AssocMap,
};
use crate::assoc::keys_of;
use crate::dependency_graph::{Edge, EdgeData, EdgeDataView, EdgeType, GraphView, Node, NodeType};
use crate::exports::{vertex_of, NodePair};
use crate::graph::DependencyGraph;
use crate::model::RosModel;
use crate::plotting::plots::{lemma_seq_min_max, seq_max, seq_min};
use crate::statistics::{median_of, sorted_values, Sorted, lemma_sorted_values};

verus! {

/// The range of latencies of no edge.
pub open spec fn empty_range() -> (i64, i64) {
    (i64::MAX, i64::MIN)
}

/// `r` widened to include `l`.
pub open spec fn widen(r: (i64, i64), l: i64) -> (i64, i64) {
    (if l < r.0 {
        l
    } else {
        r.0
    }, if l > r.1 {
        l
    } else {
        r.1
    })
}

/// A range that some latency widened; none where it is still empty.
pub open spec fn valid_range(r: (i64, i64)) -> Option<(i64, i64)> {
    if r.0 == i64::MAX && r.1 == i64::MIN {
        None
    } else {
        Some(r)
    }
}

fn widened(r: (i64, i64), l: i64) -> (w: (i64, i64))
    ensures
        w == widen(r, l),
{
    (if l < r.0 {
        l
    } else {
        r.0
    }, if l > r.1 {
        l
    } else {
        r.1
    })
}

/// The ranges of the median latencies of the edges inside one ROS node, by
/// kind of edge.
#[derive(Debug, Clone, Copy)]
pub struct EdgeWeightStats {
    pub subscriber_to_callback: (i64, i64),
    pub service_to_callback: (i64, i64),
    pub timer_to_callback: (i64, i64),
    pub callback_to_publisher: (i64, i64),
}

pub open spec fn default_stats() -> EdgeWeightStats {
    EdgeWeightStats {
        subscriber_to_callback: empty_range(),
        service_to_callback: empty_range(),
        timer_to_callback: empty_range(),
        callback_to_publisher: empty_range(),
    }
}

impl EdgeWeightStats {
    /// The range of the kind of edge `t` widened to include `l`.
    pub open spec fn spec_update(self, t: EdgeType, l: i64) -> EdgeWeightStats {
        match t {
            EdgeType::SubscriberCallbackInvocation => EdgeWeightStats {
                subscriber_to_callback: widen(self.subscriber_to_callback, l),
                ..self
            },
            EdgeType::ServiceCallbackInvocation => EdgeWeightStats {
                service_to_callback: widen(self.service_to_callback, l),
                ..self
            },
            EdgeType::TimerCallbackInvocation => EdgeWeightStats {
                timer_to_callback: widen(self.timer_to_callback, l),
                ..self
            },
            EdgeType::PublicationInCallback => EdgeWeightStats {
                callback_to_publisher: widen(self.callback_to_publisher, l),
                ..self
            },
            EdgeType::PublisherSubscriberCommunication => self,
        }
    }

    pub open spec fn spec_range_for_type(self, t: EdgeType) -> Option<(i64, i64)> {
        match t {
            EdgeType::SubscriberCallbackInvocation => valid_range(self.subscriber_to_callback),
            EdgeType::ServiceCallbackInvocation => valid_range(self.service_to_callback),
            EdgeType::TimerCallbackInvocation => valid_range(self.timer_to_callback),
            EdgeType::PublicationInCallback => valid_range(self.callback_to_publisher),
            EdgeType::PublisherSubscriberCommunication => None,
        }
    }

    /// Every range empty.
    pub fn default() -> (s: Self)
        ensures
            s == default_stats(),
    {
        EdgeWeightStats {
            subscriber_to_callback: (i64::MAX, i64::MIN),
            service_to_callback: (i64::MAX, i64::MIN),
            timer_to_callback: (i64::MAX, i64::MIN),
            callback_to_publisher: (i64::MAX, i64::MIN),
        }
    }

    pub fn update_subscriber_to_callback(&mut self, latency: i64)
        ensures
            *final(self) == old(self).spec_update(EdgeType::SubscriberCallbackInvocation, latency),
            forall|us: Seq<(EdgeType, i64)>|
                *old(self) == updates_applied(default_stats(), us) ==> *final(self) == updates_applied(
                    default_stats(),
                    #[trigger] us.push((EdgeType::SubscriberCallbackInvocation, latency)),
                ),
    {
        proof {
            lemma_updates_applied_push_all(default_stats(), EdgeType::SubscriberCallbackInvocation, latency);
        }
        self.subscriber_to_callback = widened(self.subscriber_to_callback, latency);
    }

    pub fn update_timer_to_callback(&mut self, latency: i64)
        ensures
            *final(self) == old(self).spec_update(EdgeType::TimerCallbackInvocation, latency),
            forall|us: Seq<(EdgeType, i64)>|
                *old(self) == updates_applied(default_stats(), us) ==> *final(self) == updates_applied(
                    default_stats(),
                    #[trigger] us.push((EdgeType::TimerCallbackInvocation, latency)),
                ),
    {
        proof {
            lemma_updates_applied_push_all(default_stats(), EdgeType::TimerCallbackInvocation, latency);
        }
        self.timer_to_callback = widened(self.timer_to_callback, latency);
    }

    pub fn update_service_to_callback(&mut self, latency: i64)
        ensures
            *final(self) == old(self).spec_update(EdgeType::ServiceCallbackInvocation, latency),
            forall|us: Seq<(EdgeType, i64)>|
                *old(self) == updates_applied(default_stats(), us) ==> *final(self) == updates_applied(
                    default_stats(),
                    #[trigger] us.push((EdgeType::ServiceCallbackInvocation, latency)),
                ),
    {
        proof {
            lemma_updates_applied_push_all(default_stats(), EdgeType::ServiceCallbackInvocation, latency);
        }
        self.service_to_callback = widened(self.service_to_callback, latency);
    }

    pub fn update_callback_to_publisher(&mut self, latency: i64)
        ensures
            *final(self) == old(self).spec_update(EdgeType::PublicationInCallback, latency),
            forall|us: Seq<(EdgeType, i64)>|
                *old(self) == updates_applied(default_stats(), us) ==> *final(self) == updates_applied(
                    default_stats(),
                    #[trigger] us.push((EdgeType::PublicationInCallback, latency)),
                ),
    {
        proof {
            lemma_updates_applied_push_all(default_stats(), EdgeType::PublicationInCallback, latency);
        }
        self.callback_to_publisher = widened(self.callback_to_publisher, latency);
    }

    /// The range, where some latency widened it.
    pub fn validate_range(range: (i64, i64)) -> (r: Option<(i64, i64)>)
        ensures
            r == valid_range(range),
    {
        if range.0 == i64::MAX && range.1 == i64::MIN {
            None
        } else {
            Some(range)
        }
    }

    /// The range of the median latencies of the edges of kind `typ`.
    pub fn range_for_type(&self, typ: EdgeType) -> (r: Option<(i64, i64)>)
        ensures
            r == self.spec_range_for_type(typ),
    {
        match typ {
            EdgeType::SubscriberCallbackInvocation => Self::validate_range(self.subscriber_to_callback),
            EdgeType::ServiceCallbackInvocation => Self::validate_range(self.service_to_callback),
            EdgeType::TimerCallbackInvocation => Self::validate_range(self.timer_to_callback),
            EdgeType::PublicationInCallback => Self::validate_range(self.callback_to_publisher),
            EdgeType::PublisherSubscriberCommunication => None,
        }
    }

    /// Widens the range of the kind of edge `t`.
    pub fn update(&mut self, t: EdgeType, latency: i64)
        ensures
            *final(self) == old(self).spec_update(t, latency),
            forall|us: Seq<(EdgeType, i64)>|
                *old(self) == updates_applied(default_stats(), us) ==> *final(self) == updates_applied(
                    default_stats(),
                    #[trigger] us.push((t, latency)),
                ),
    {
        proof {
            lemma_updates_applied_push_all(default_stats(), t, latency);
        }
        match t {
            EdgeType::SubscriberCallbackInvocation => self.update_subscriber_to_callback(latency),
            EdgeType::ServiceCallbackInvocation => self.update_service_to_callback(latency),
            EdgeType::TimerCallbackInvocation => self.update_timer_to_callback(latency),
            EdgeType::PublicationInCallback => self.update_callback_to_publisher(latency),
            EdgeType::PublisherSubscriberCommunication => {},
        }
    }
}

/// The statistics after a run of updates, each of a kind of edge with a
/// latency, in order.
pub open spec fn updates_applied(s: EdgeWeightStats, us: Seq<(EdgeType, i64)>) -> EdgeWeightStats
    decreases us.len(),
{
    if us.len() == 0 {
        s
    } else {
        updates_applied(s, us.drop_last()).spec_update(us.last().0, us.last().1)
    }
}

/// The latencies of a run of updates fed to the kind of edge `t`, in order.
pub open spec fn latencies_fed(us: Seq<(EdgeType, i64)>, t: EdgeType) -> Seq<i64>
    decreases us.len(),
{
    if us.len() == 0 {
        Seq::empty()
    } else if us.last().0 == t {
        latencies_fed(us.drop_last(), t).push(us.last().1)
    } else {
        latencies_fed(us.drop_last(), t)
    }
}

/// The stored range of the kind of edge `t`.
pub open spec fn stored_range(s: EdgeWeightStats, t: EdgeType) -> (i64, i64) {
    match t {
        EdgeType::SubscriberCallbackInvocation => s.subscriber_to_callback,
        EdgeType::ServiceCallbackInvocation => s.service_to_callback,
        EdgeType::TimerCallbackInvocation => s.timer_to_callback,
        EdgeType::PublicationInCallback => s.callback_to_publisher,
        EdgeType::PublisherSubscriberCommunication => empty_range(),
    }
}

/// One more update extends the run: the statistics after the longer run are
/// those after the shorter one, updated once more.
pub proof fn lemma_updates_applied_push_all(s: EdgeWeightStats, t: EdgeType, l: i64)
    ensures
        forall|us: Seq<(EdgeType, i64)>|
            #[trigger] updates_applied(s, us.push((t, l))) == updates_applied(s, us).spec_update(t, l),
{
    assert forall|us: Seq<(EdgeType, i64)>|
        #[trigger] updates_applied(s, us.push((t, l))) == updates_applied(s, us).spec_update(t, l) by {
        assert(us.push((t, l)).drop_last() =~= us);
    }
}

proof fn lemma_stored_range(us: Seq<(EdgeType, i64)>, t: EdgeType)
    requires
        t != EdgeType::PublisherSubscriberCommunication,
    ensures
        ({
            let ls = latencies_fed(us, t);
            stored_range(updates_applied(default_stats(), us), t) == if ls.len() == 0 {
                empty_range()
            } else {
                (seq_min(ls), seq_max(ls))
            }
        }),
    decreases us.len(),
{
    if us.len() > 0 {
        let prev = us.drop_last();
        lemma_stored_range(prev, t);
        let ls = latencies_fed(prev, t);
        if us.last().0 == t {
            let l = us.last().1;
            assert(ls.push(l).drop_last() =~= ls);
            assert(ls.push(l).last() == l);
        }
    }
}

/// After a run of updates from the default statistics, the range of each
/// kind of edge inside a ROS node is the least and greatest latency fed to
/// that kind, or none where no latency was fed to it; the
/// publisher-to-subscriber kind never has one.
pub proof fn law_edge_weight_ranges(us: Seq<(EdgeType, i64)>, t: EdgeType)
    ensures
        ({
            let ls = latencies_fed(us, t);
            updates_applied(default_stats(), us).spec_range_for_type(t) == if t
                == EdgeType::PublisherSubscriberCommunication || ls.len() == 0 {
                None
            } else {
                Some((seq_min(ls), seq_max(ls)))
            }
        }),
{
    if t != EdgeType::PublisherSubscriberCommunication {
        lemma_stored_range(us, t);
        let ls = latencies_fed(us, t);
        if ls.len() > 0 {
            lemma_seq_min_max(ls);
            assert(seq_min(ls) <= ls[0] <= seq_max(ls));
        }
    }
}

/// An edge as drawn.
pub struct DisplayAsDotEdge {
    pub source: usize,
    pub target: usize,
    pub latencies: Sorted,
    /// The ROS node whose latency range the edge is scaled to, if any.
    pub node_index: Option<usize>,
    pub edge_type: EdgeType,
}

/// What a drawn edge holds.
pub struct DotEdgeView {
    pub source: usize,
    pub target: usize,
    pub latencies: Seq<i64>,
    pub node_index: Option<usize>,
    pub edge_type: EdgeType,
}

impl View for DisplayAsDotEdge {
    type V = DotEdgeView;

    open spec fn view(&self) -> DotEdgeView {
        DotEdgeView {
            source: self.source,
            target: self.target,
            latencies: self.latencies@,
            node_index: self.node_index,
            edge_type: self.edge_type,
        }
    }
}

/// What processing the edges has produced so far.
pub struct EdgesState {
    pub edges: Seq<DotEdgeView>,
    pub stats: Seq<(u64, EdgeWeightStats)>,
    pub pub_sub: (i64, i64),
    pub edge_ids: Seq<(NodePair, usize)>,
    pub next_id: int,
}

pub open spec fn initial_edges_state() -> EdgesState {
    EdgesState {
        edges: Seq::empty(),
        stats: Seq::empty(),
        pub_sub: empty_range(),
        edge_ids: Seq::empty(),
        next_id: 1,
    }
}

pub open spec fn stats_updater(t: EdgeType, l: i64) -> spec_fn(EdgeWeightStats) -> EdgeWeightStats {
    |s: EdgeWeightStats| s.spec_update(t, l)
}

/// One edge processed. An edge without latencies, or with an end that has
/// no identifier, is skipped; otherwise the pair of end identifiers gets the
/// next edge identifier. An edge with an end outside every ROS node is then
/// skipped. A publisher-to-subscriber edge widens the range of all such
/// edges; another edge inside one ROS node widens that node's range for its
/// kind and is scaled to that node; the edge is kept with its latencies
/// sorted.
pub open spec fn edge_step(
    st: EdgesState,
    e: Edge,
    d: EdgeDataView,
    g2r: Seq<(Node, u64)>,
    r2id: Seq<(u64, usize)>,
    n2id: Seq<(Node, usize)>,
) -> EdgesState {
    let source = e.spec_source();
    let target = e.spec_target();
    if d.latencies.len() == 0 || !has_key(n2id, source) || !has_key(n2id, target) {
        st
    } else {
        let sid = lookup(n2id, source).unwrap();
        let tid = lookup(n2id, target).unwrap();
        let st1 = EdgesState {
            edge_ids: insert(st.edge_ids, NodePair { source: sid, target: tid }, st.next_id as usize),
            next_id: st.next_id + 1,
            ..st
        };
        if !has_key(g2r, source) || !has_key(g2r, target) {
            st1
        } else {
            let median = median_of(d.latencies);
            let sr = lookup(g2r, source).unwrap();
            let tr = lookup(g2r, target).unwrap();
            let t = e.spec_type();
            let st2 = if t == EdgeType::PublisherSubscriberCommunication {
                EdgesState { pub_sub: widen(st1.pub_sub, median), ..st1 }
            } else if sr == tr {
                EdgesState { stats: upsert(st1.stats, sr, default_stats(), stats_updater(t, median)), ..st1 }
            } else {
                st1
            };
            let node_index = if t != EdgeType::PublisherSubscriberCommunication && sr == tr {
                lookup(r2id, sr)
            } else {
                None
            };
            EdgesState {
                edges: st2.edges.push(
                    DotEdgeView {
                        source: sid,
                        target: tid,
                        latencies: sorted_values(d.latencies),
                        node_index,
                        edge_type: t,
                    },
                ),
                ..st2
            }
        }
    }
}

/// The edges processed in order.
pub open spec fn processed_edges(
    edges: Seq<(Edge, EdgeDataView)>,
    g2r: Seq<(Node, u64)>,
    r2id: Seq<(u64, usize)>,
    n2id: Seq<(Node, usize)>,
) -> EdgesState
    decreases edges.len(),
{
    if edges.len() == 0 {
        initial_edges_state()
    } else {
        edge_step(
            processed_edges(edges.drop_last(), g2r, r2id, n2id),
            edges.last().0,
            edges.last().1,
            g2r,
            r2id,
            n2id,
        )
    }
}

/// Widens the range of kind `t` of the ROS node `k`.
fn update_stats(m: &mut AssocMap<u64, EdgeWeightStats>, k: u64, t: EdgeType, l: i64)
    requires
        old(m).wf(),
    ensures
        final(m).wf(),
        final(m).entries() == upsert(old(m).entries(), k, default_stats(), stats_updater(t, l)),
{
    let ghost e0 = m.entries();
    proof {
        m.lemma_keys_unique();
    }
    match m.find(&k) {
        Some(i) => {
            proof {
                lemma_index_of_unique(e0, i as int);
            }
            let mut s = *m.value_at(i);
            s.update(t, l);
            let _ = m.replace_at(i, s);
        },
        None => {
            let mut s = EdgeWeightStats::default();
            s.update(t, l);
            m.push(k, s);
        },
    }
}

/// The drawn edges, the latency ranges inside each ROS node, the range of
/// the publisher-to-subscriber edges (where there is any) and the edge
/// identifiers, from the edges of the graph.
pub fn process_edges(
    graph_edges: &AssocMap<Edge, EdgeData>,
    graph_node_to_ros_node: &AssocMap<Node, u64>,
    ros_node_to_id: &AssocMap<u64, usize>,
    node_to_id: &AssocMap<Node, usize>,
) -> (r: (Vec<DisplayAsDotEdge>, AssocMap<u64, EdgeWeightStats>, Option<(i64, i64)>, AssocMap<NodePair, usize>))
    requires
        graph_edges.wf(),
        graph_node_to_ros_node.wf(),
        ros_node_to_id.wf(),
        node_to_id.wf(),
        graph_edges.entries().len() < usize::MAX,
    ensures
        r.1.wf(),
        r.3.wf(),
        ({
            let st = processed_edges(
                viewed(graph_edges.entries()),
                graph_node_to_ros_node.entries(),
                ros_node_to_id.entries(),
                node_to_id.entries(),
            );
            &&& r.0@.map_values(|e: DisplayAsDotEdge| e@) == st.edges
            &&& r.1.entries() == st.stats
            &&& r.2 == valid_range(st.pub_sub)
            &&& r.3.entries() == st.edge_ids
        }),
{
    let ghost edges = viewed(graph_edges.entries());
    let ghost g2r = graph_node_to_ros_node.entries();
    let ghost r2id = ros_node_to_id.entries();
    let ghost n2id = node_to_id.entries();
    let mut pub_sub: (i64, i64) = (i64::MAX, i64::MIN);
    let mut out: Vec<DisplayAsDotEdge> = Vec::new();
    let mut stats: AssocMap<u64, EdgeWeightStats> = AssocMap::new();
    let mut edge_ids: AssocMap<NodePair, usize> = AssocMap::new();
    let mut edge_id: usize = 1;
    let mut i: usize = 0;
    proof {
        lemma_viewed_keys(graph_edges.entries());
        assert(edges.take(0) =~= Seq::<(Edge, EdgeDataView)>::empty());
        assert(out@.map_values(|e: DisplayAsDotEdge| e@) =~= Seq::<DotEdgeView>::empty());
    }
    while i < graph_edges.len()
        invariant
            graph_edges.wf(),
            graph_node_to_ros_node.wf(),
            ros_node_to_id.wf(),
            node_to_id.wf(),
            edges == viewed(graph_edges.entries()),
            g2r == graph_node_to_ros_node.entries(),
            r2id == ros_node_to_id.entries(),
            n2id == node_to_id.entries(),
            edges.len() < usize::MAX,
            i <= edges.len(),
            stats.wf(),
            edge_ids.wf(),
            1 <= edge_id <= i + 1,
            ({
                let st = processed_edges(edges.take(i as int), g2r, r2id, n2id);
                &&& out@.map_values(|e: DisplayAsDotEdge| e@) == st.edges
                &&& stats.entries() == st.stats
                &&& pub_sub == st.pub_sub
                &&& edge_ids.entries() == st.edge_ids
                &&& edge_id == st.next_id
            }),
        decreases edges.len() - i,
    {
        let ghost st0 = processed_edges(edges.take(i as int), g2r, r2id, n2id);
        proof {
            assert(edges.take(i + 1).drop_last() =~= edges.take(i as int));
            assert(edges.take(i + 1).last() == edges[i as int]);
            assert(edges[i as int].0 == graph_edges.entries()[i as int].0);
        }
        let edge = graph_edges.key_at(i);
        let data = graph_edges.value_at(i);
        let latencies = Sorted::from_unsorted(&data.latencies());
        let source = edge.source();
        let target = edge.target();
        let median = latencies.median();
        let source_id = node_to_id.get(&source);
        let target_id = node_to_id.get(&target);
        let ghost st1 = edge_step(st0, edge, data@, g2r, r2id, n2id);
        proof {
            lemma_sorted_values(data@.latencies);
        }
        if median.is_some() && source_id.is_some() && target_id.is_some() {
            let source_id = *source_id.unwrap();
            let target_id = *target_id.unwrap();
            edge_ids.insert(NodePair { source: source_id, target: target_id }, edge_id);
            edge_id = edge_id + 1;
            assert(edge_ids.entries() == st1.edge_ids);
            let source_ros_node = graph_node_to_ros_node.get(&source);
            let target_ros_node = graph_node_to_ros_node.get(&target);
            if source_ros_node.is_some() && target_ros_node.is_some() {
                let source_ros_node = *source_ros_node.unwrap();
                let target_ros_node = *target_ros_node.unwrap();
                let median = median.unwrap();
                let edge_type = edge.as_type();
                let same_node = source_ros_node == target_ros_node;
                let node_index = match edge_type {
                    EdgeType::PublisherSubscriberCommunication => {
                        pub_sub = widened(pub_sub, median);
                        None
                    },
                    _ => {
                        if same_node {
                            update_stats(&mut stats, source_ros_node, edge_type, median);
                            match ros_node_to_id.get(&source_ros_node) {
                                Some(id) => Some(*id),
                                None => None,
                            }
                        } else {
                            None
                        }
                    },
                };
                let ghost out0 = out@;
                let dot_edge = DisplayAsDotEdge {
                    source: source_id,
                    target: target_id,
                    latencies,
                    node_index,
                    edge_type,
                };
                assert(dot_edge@ == st1.edges.last());
                out.push(dot_edge);
                proof {
                    assert(out@.map_values(|e: DisplayAsDotEdge| e@) =~= out0.map_values(
                        |e: DisplayAsDotEdge| e@,
                    ).push(out@[out@.len() - 1]@));
                }
            }
        }
        proof {
            let st1 = edge_step(st0, edges[i as int].0, edges[i as int].1, g2r, r2id, n2id);
            assert(processed_edges(edges.take(i + 1), g2r, r2id, n2id) == st1);
            assert(edges[i as int].1 == data@);
            assert(out@.map_values(|e: DisplayAsDotEdge| e@) == st1.edges);
            assert(stats.entries() == st1.stats);
            assert(pub_sub == st1.pub_sub);
            assert(edge_ids.entries() == st1.edge_ids);
            assert(edge_id == st1.next_id);
        }
        i = i + 1;
    }
    proof {
        assert(edges.take(edges.len() as int) =~= edges);
    }
    let range = EdgeWeightStats::validate_range(pub_sub);
    (out, stats, range, edge_ids)
}

/// Every drawn edge has samples and an identifier for its pair of ends, and
/// the range of the publisher-to-subscriber latencies holds the median of
/// every such edge drawn.
pub open spec fn drawn_edges_ok(st: EdgesState) -> bool {
    &&& keys_unique(st.edge_ids)
    &&& forall|i: int|
        0 <= i < st.edges.len() ==> {
            let e = #[trigger] st.edges[i];
            &&& e.latencies.len() > 0
            &&& has_key(st.edge_ids, NodePair { source: e.source, target: e.target })
            &&& e.edge_type == EdgeType::PublisherSubscriberCommunication ==> st.pub_sub.0
                <= e.latencies[(e.latencies.len() / 2) as int] <= st.pub_sub.1
        }
}

/// Every drawn edge has an identifier for its pair of ends, and the range of
/// publisher-to-subscriber latencies, which exists as soon as one such edge
/// is drawn, holds the median latency of each.
pub proof fn lemma_processed_edges(
    edges: Seq<(Edge, EdgeDataView)>,
    g2r: Seq<(Node, u64)>,
    r2id: Seq<(u64, usize)>,
    n2id: Seq<(Node, usize)>,
)
    ensures
        drawn_edges_ok(processed_edges(edges, g2r, r2id, n2id)),
        (exists|i: int|
            0 <= i < processed_edges(edges, g2r, r2id, n2id).edges.len()
                && (#[trigger] processed_edges(edges, g2r, r2id, n2id).edges[i]).edge_type
                == EdgeType::PublisherSubscriberCommunication) ==> valid_range(
            processed_edges(edges, g2r, r2id, n2id).pub_sub,
        ) is Some,
    decreases edges.len(),
{
    if edges.len() > 0 {
        let st = processed_edges(edges.drop_last(), g2r, r2id, n2id);
        lemma_processed_edges(edges.drop_last(), g2r, r2id, n2id);
        let e = edges.last().0;
        let d = edges.last().1;
        let r = processed_edges(edges, g2r, r2id, n2id);
        let source = e.spec_source();
        let target = e.spec_target();
        if !(d.latencies.len() == 0 || !has_key(n2id, source) || !has_key(n2id, target)) {
            let sid = lookup(n2id, source).unwrap();
            let tid = lookup(n2id, target).unwrap();
            let pair = NodePair { source: sid, target: tid };
            lemma_insert_keeps_unique(st.edge_ids, pair, st.next_id as usize);
            lemma_sorted_values(d.latencies);
            let ids = insert(st.edge_ids, pair, st.next_id as usize);
            assert forall|k: NodePair| has_key(st.edge_ids, k) implies has_key(ids, k) by {
                if k != pair {
                    assert(lookup(ids, k) == lookup(st.edge_ids, k));
                }
            }
            assert forall|i: int| 0 <= i < r.edges.len() implies {
                let x = #[trigger] r.edges[i];
                &&& x.latencies.len() > 0
                &&& has_key(r.edge_ids, NodePair { source: x.source, target: x.target })
                &&& x.edge_type == EdgeType::PublisherSubscriberCommunication ==> r.pub_sub.0
                    <= x.latencies[(x.latencies.len() / 2) as int] <= r.pub_sub.1
            } by {
                if i < st.edges.len() {
                    assert(r.edges[i] == st.edges[i]);
                }
            }
            if exists|i: int|
                0 <= i < r.edges.len() && (#[trigger] r.edges[i]).edge_type
                    == EdgeType::PublisherSubscriberCommunication {
                let i = choose|i: int|
                    0 <= i < r.edges.len() && (#[trigger] r.edges[i]).edge_type
                        == EdgeType::PublisherSubscriberCommunication;
                if i < st.edges.len() {
                    assert(r.edges[i] == st.edges[i]);
                }
            }
        }
    }
}

/// The median latency of a drawn edge: the sample at half the length of
/// its sorted latencies.
pub open spec fn drawn_median(e: DotEdgeView) -> i64 {
    e.latencies[(e.latencies.len() / 2) as int]
}

/// `v` lies in the stored range of kind `t` of ROS node `r`.
pub open spec fn in_node_range(stats: Seq<(u64, EdgeWeightStats)>, r: u64, t: EdgeType, v: i64) -> bool {
    match lookup(stats, r) {
        Some(s) => stored_range(s, t).0 <= v <= stored_range(s, t).1,
        None => false,
    }
}

/// Every edge scaled to a ROS node's range has its median in the range of
/// its kind inside that node.
pub open spec fn node_ranges_hold(st: EdgesState, r2id: Seq<(u64, usize)>) -> bool {
    &&& keys_unique(st.stats)
    &&& forall|i: int|
        0 <= i < st.edges.len() && (#[trigger] st.edges[i]).node_index is Some ==> {
            let e = st.edges[i];
            &&& e.edge_type != EdgeType::PublisherSubscriberCommunication
            &&& exists|r: u64|
                #[trigger] lookup(r2id, r) == e.node_index && in_node_range(st.stats, r, e.edge_type, drawn_median(e))
        }
}

proof fn lemma_update_keeps_range(s: EdgeWeightStats, t: EdgeType, l: i64, t2: EdgeType, v: i64)
    requires
        t2 != EdgeType::PublisherSubscriberCommunication,
        stored_range(s, t2).0 <= v <= stored_range(s, t2).1,
    ensures
        stored_range(s.spec_update(t, l), t2).0 <= v <= stored_range(s.spec_update(t, l), t2).1,
{
}

proof fn lemma_update_holds_latency(s: EdgeWeightStats, t: EdgeType, l: i64)
    requires
        t != EdgeType::PublisherSubscriberCommunication,
    ensures
        stored_range(s.spec_update(t, l), t).0 <= l <= stored_range(s.spec_update(t, l), t).1,
{
}

proof fn lemma_node_ranges(
    edges: Seq<(Edge, EdgeDataView)>,
    g2r: Seq<(Node, u64)>,
    r2id: Seq<(u64, usize)>,
    n2id: Seq<(Node, usize)>,
)
    ensures
        node_ranges_hold(processed_edges(edges, g2r, r2id, n2id), r2id),
    decreases edges.len(),
{
    if edges.len() > 0 {
        let prev = edges.drop_last();
        lemma_node_ranges(prev, g2r, r2id, n2id);
        let st = processed_edges(prev, g2r, r2id, n2id);
        let e = edges.last().0;
        let d = edges.last().1;
        let res = processed_edges(edges, g2r, r2id, n2id);
        let source = e.spec_source();
        let target = e.spec_target();
        if !(d.latencies.len() == 0 || !has_key(n2id, source) || !has_key(n2id, target) || !has_key(g2r, source)
            || !has_key(g2r, target)) {
            let median = median_of(d.latencies);
            let sr = lookup(g2r, source).unwrap();
            let tr = lookup(g2r, target).unwrap();
            let t = e.spec_type();
            lemma_sorted_values(d.latencies);
            let upd = t != EdgeType::PublisherSubscriberCommunication && sr == tr;
            if upd {
                lemma_upsert_keeps_unique(st.stats, sr, default_stats(), stats_updater(t, median));
            }
            assert(res.stats == if upd {
                upsert(st.stats, sr, default_stats(), stats_updater(t, median))
            } else {
                st.stats
            });
            assert forall|i: int|
                0 <= i < res.edges.len() && (#[trigger] res.edges[i]).node_index is Some implies {
                    let x = res.edges[i];
                    &&& x.edge_type != EdgeType::PublisherSubscriberCommunication
                    &&& exists|r: u64|
                        #[trigger] lookup(r2id, r) == x.node_index && in_node_range(
                            res.stats,
                            r,
                            x.edge_type,
                            drawn_median(x),
                        )
                } by {
                let x = res.edges[i];
                if i < st.edges.len() {
                    assert(x == st.edges[i]);
                    let r = choose|r: u64|
                        #[trigger] lookup(r2id, r) == x.node_index && in_node_range(st.stats, r, x.edge_type, drawn_median(x));
                    if upd && r == sr {
                        let old_s = lookup(st.stats, sr).unwrap();
                        lemma_update_keeps_range(old_s, t, median, x.edge_type, drawn_median(x));
                        assert(in_node_range(res.stats, r, x.edge_type, drawn_median(x)));
                    } else {
                        assert(in_node_range(res.stats, r, x.edge_type, drawn_median(x)));
                    }
                } else {
                    assert(upd);
                    assert(drawn_median(x) == median);
                    let base = match lookup(st.stats, sr) {
                        Some(v) => v,
                        None => default_stats(),
                    };
                    lemma_update_holds_latency(base, t, median);
                    assert(in_node_range(res.stats, sr, x.edge_type, drawn_median(x)));
                    assert(lookup(r2id, sr) == x.node_index);
                }
            }
        }
    }
}

/// Some drawn edge of kind `t` scaled to ROS node `r` has median `v`.
pub open spec fn median_attained(st: EdgesState, r2id: Seq<(u64, usize)>, r: u64, t: EdgeType, v: i64) -> bool {
    exists|i: int|
        0 <= i < st.edges.len() && (#[trigger] st.edges[i]).edge_type == t && st.edges[i].node_index
            == lookup(r2id, r) && drawn_median(st.edges[i]) == v
}

/// Each stored range of a ROS node is empty or runs from the median of one
/// drawn edge of its kind in that node to the median of another.
pub open spec fn node_ranges_attained(st: EdgesState, r2id: Seq<(u64, usize)>) -> bool {
    forall|r: u64, t: EdgeType|
        #![trigger stored_range(lookup(st.stats, r).unwrap(), t)]
        t != EdgeType::PublisherSubscriberCommunication && has_key(st.stats, r) ==> {
            let p = stored_range(lookup(st.stats, r).unwrap(), t);
            p == empty_range() || (median_attained(st, r2id, r, t, p.0) && median_attained(
                st,
                r2id,
                r,
                t,
                p.1,
            ))
        }
}

proof fn lemma_node_ranges_attained(
    edges: Seq<(Edge, EdgeDataView)>,
    g2r: Seq<(Node, u64)>,
    r2id: Seq<(u64, usize)>,
    n2id: Seq<(Node, usize)>,
)
    ensures
        node_ranges_attained(processed_edges(edges, g2r, r2id, n2id), r2id),
    decreases edges.len(),
{
    if edges.len() > 0 {
        let prev = edges.drop_last();
        lemma_node_ranges_attained(prev, g2r, r2id, n2id);
        lemma_node_ranges(prev, g2r, r2id, n2id);
        let st = processed_edges(prev, g2r, r2id, n2id);
        let e = edges.last().0;
        let d = edges.last().1;
        let res = processed_edges(edges, g2r, r2id, n2id);
        let source = e.spec_source();
        let target = e.spec_target();
        if d.latencies.len() == 0 || !has_key(n2id, source) || !has_key(n2id, target) || !has_key(g2r, source)
            || !has_key(g2r, target) {
            assert(res.stats == st.stats && res.edges == st.edges);
        } else {
            let median = median_of(d.latencies);
            let sr = lookup(g2r, source).unwrap();
            let tr = lookup(g2r, target).unwrap();
            let tn = e.spec_type();
            lemma_sorted_values(d.latencies);
            let upd = tn != EdgeType::PublisherSubscriberCommunication && sr == tr;
            let n = st.edges.len() as int;
            assert(res.edges.len() == n + 1);
            assert(forall|i: int| 0 <= i < n ==> res.edges[i] == st.edges[i]);
            let x = res.edges[n];
            assert(x.edge_type == tn && drawn_median(x) == median);
            assert(upd ==> x.node_index == lookup(r2id, sr));
            if upd {
                lemma_upsert_keeps_unique(st.stats, sr, default_stats(), stats_updater(tn, median));
            }
            assert forall|r: u64, t: EdgeType|
                #![trigger stored_range(lookup(res.stats, r).unwrap(), t)]
                t != EdgeType::PublisherSubscriberCommunication && has_key(res.stats, r) implies {
                    let p = stored_range(lookup(res.stats, r).unwrap(), t);
                    p == empty_range() || (median_attained(res, r2id, r, t, p.0) && median_attained(
                        res,
                        r2id,
                        r,
                        t,
                        p.1,
                    ))
                } by {
                let p = stored_range(lookup(res.stats, r).unwrap(), t);
                if !upd || r != sr {
                    assert(res.stats == st.stats || lookup(res.stats, r) == lookup(st.stats, r));
                    assert(has_key(st.stats, r));
                    let q = stored_range(lookup(st.stats, r).unwrap(), t);
                    assert(p == q);
                    if p != empty_range() {
                        let i0 = choose|i: int|
                            0 <= i < st.edges.len() && (#[trigger] st.edges[i]).edge_type == t
                                && st.edges[i].node_index == lookup(r2id, r) && drawn_median(st.edges[i]) == q.0;
                        let i1 = choose|i: int|
                            0 <= i < st.edges.len() && (#[trigger] st.edges[i]).edge_type == t
                                && st.edges[i].node_index == lookup(r2id, r) && drawn_median(st.edges[i]) == q.1;
                        assert(res.edges[i0] == st.edges[i0]);
                        assert(res.edges[i1] == st.edges[i1]);
                    }
                } else {
                    let base = match lookup(st.stats, sr) {
                        Some(v) => v,
                        None => default_stats(),
                    };
                    assert(lookup(res.stats, r).unwrap() == base.spec_update(tn, median));
                    let q = stored_range(base, t);
                    let q_ok = q == empty_range() || (median_attained(st, r2id, r, t, q.0) && median_attained(
                        st,
                        r2id,
                        r,
                        t,
                        q.1,
                    ));
                    if has_key(st.stats, r) {
                        assert(q_ok);
                    } else {
                        assert(q == empty_range());
                    }
                    if q != empty_range() {
                        let i0 = choose|i: int|
                            0 <= i < st.edges.len() && (#[trigger] st.edges[i]).edge_type == t
                                && st.edges[i].node_index == lookup(r2id, r) && drawn_median(st.edges[i]) == q.0;
                        let i1 = choose|i: int|
                            0 <= i < st.edges.len() && (#[trigger] st.edges[i]).edge_type == t
                                && st.edges[i].node_index == lookup(r2id, r) && drawn_median(st.edges[i]) == q.1;
                        assert(res.edges[i0] == st.edges[i0]);
                        assert(res.edges[i1] == st.edges[i1]);
                    }
                    if t == tn {
                        assert(p == widen(q, median));
                        assert(res.edges[n] == x);
                        if q == empty_range() {
                            assert(p == (median, median));
                        }
                    } else {
                        assert(p == q);
                    }
                }
            }
        }
    }
}

/// The range of each kind of edge inside a ROS node runs from the least to
/// the greatest median latency of the drawn edges of that kind in that node:
/// every such edge's median lies in it, and both of its ends are the median
/// of such an edge (or it is empty).
pub proof fn law_node_ranges_are_extreme_medians(
    edges: Seq<(Edge, EdgeDataView)>,
    g2r: Seq<(Node, u64)>,
    r2id: Seq<(u64, usize)>,
    n2id: Seq<(Node, usize)>,
)
    ensures
        node_ranges_hold(processed_edges(edges, g2r, r2id, n2id), r2id),
        node_ranges_attained(processed_edges(edges, g2r, r2id, n2id), r2id),
{
    lemma_node_ranges(edges, g2r, r2id, n2id);
    lemma_node_ranges_attained(edges, g2r, r2id, n2id);
}

/// Every drawn edge carries the latencies of an edge of the graph that has
/// some, sorted.
pub proof fn lemma_drawn_latencies(
    edges: Seq<(Edge, EdgeDataView)>,
    g2r: Seq<(Node, u64)>,
    r2id: Seq<(u64, usize)>,
    n2id: Seq<(Node, usize)>,
)
    ensures
        forall|i: int|
            0 <= i < processed_edges(edges, g2r, r2id, n2id).edges.len() ==> exists|j: int|
                0 <= j < edges.len() && edges[j].1.latencies.len() > 0
                    && (#[trigger] processed_edges(edges, g2r, r2id, n2id).edges[i]).latencies == sorted_values(
                    edges[j].1.latencies,
                ),
    decreases edges.len(),
{
    if edges.len() > 0 {
        let prev = edges.drop_last();
        lemma_drawn_latencies(prev, g2r, r2id, n2id);
        let st = processed_edges(prev, g2r, r2id, n2id);
        let res = processed_edges(edges, g2r, r2id, n2id);
        assert forall|i: int| 0 <= i < res.edges.len() implies exists|j: int|
            0 <= j < edges.len() && edges[j].1.latencies.len() > 0
                && (#[trigger] res.edges[i]).latencies == sorted_values(edges[j].1.latencies) by {
            if i < st.edges.len() {
                assert(res.edges[i] == st.edges[i]);
                let j = choose|j: int|
                    0 <= j < prev.len() && prev[j].1.latencies.len() > 0 && st.edges[i].latencies
                        == sorted_values(prev[j].1.latencies);
                assert(edges[j] == prev[j]);
            } else {
                assert(res.edges[i].latencies == sorted_values(edges[edges.len() - 1].1.latencies));
            }
        }
    }
}

/// Every drawn edge lies within the latency range it is scaled to: for an
/// edge between publisher and subscriber the range of all such edges, for
/// an edge inside a ROS node the range of the median latencies of the edges
/// of its kind inside that node; its median latency lies in that range.
pub proof fn law_edges_within_their_range(
    edges: Seq<(Edge, EdgeDataView)>,
    g2r: Seq<(Node, u64)>,
    ros_nodes: Seq<u64>,
    n2id: Seq<(Node, usize)>,
    i: int,
)
    requires
        ros_nodes.len() <= usize::MAX,
        ({
            let st = processed_edges(edges, g2r, enumeration(ros_nodes), n2id);
            &&& 0 <= i < st.edges.len()
            &&& (st.edges[i].edge_type == EdgeType::PublisherSubscriberCommunication
                || st.edges[i].node_index is Some)
        }),
    ensures
        ({
            let st = processed_edges(edges, g2r, enumeration(ros_nodes), n2id);
            let e = st.edges[i];
            match scale_range(valid_range(st.pub_sub), ros_nodes, st.stats, e) {
                Some(range) => range.0 <= drawn_median(e) <= range.1,
                None => false,
            }
        }),
{
    let r2id = enumeration(ros_nodes);
    let st = processed_edges(edges, g2r, r2id, n2id);
    let e = st.edges[i];
    lemma_processed_edges(edges, g2r, r2id, n2id);
    lemma_node_ranges(edges, g2r, r2id, n2id);
    assert(drawn_edges_ok(st));
    if e.edge_type == EdgeType::PublisherSubscriberCommunication {
        assert(st.pub_sub.0 <= drawn_median(e) <= st.pub_sub.1);
    } else {
        let r = choose|r: u64|
            #[trigger] lookup(r2id, r) == e.node_index && in_node_range(st.stats, r, e.edge_type, drawn_median(e));
        let k = e.node_index.unwrap();
        let idx = index_of(r2id, r);
        assert(has_key(r2id, r));
        assert(0 <= idx < ros_nodes.len());
        assert(r2id[idx].0 == r);
        assert(k == r2id[idx].1);
        assert(ros_nodes[idx] == r);
        assert(k as int == idx);
    }
}

/// The services whose callbacks the edges invoke, each once, in the order
/// in which they first appear.
pub open spec fn service_keys(edges: Seq<(Edge, EdgeDataView)>) -> Seq<u64>
    decreases edges.len(),
{
    if edges.len() == 0 {
        Seq::empty()
    } else {
        let s = service_keys(edges.drop_last());
        match edges.last().0 {
            Edge::ServiceCallbackInvocation(sv, _) => if s.contains(sv) {
                s
            } else {
                s.push(sv)
            },
            _ => s,
        }
    }
}

/// The vertices of the drawing, in the order they are numbered:
/// publishers, subscribers, timers, callbacks, then services.
pub open spec fn vertex_order(g: GraphView) -> Seq<Node> {
    keys_of(g.publishers).map_values(|k: u64| Node::Publisher(k)) + keys_of(g.subscribers).map_values(
        |k: u64| Node::Subscriber(k),
    ) + keys_of(g.timers).map_values(|k: u64| Node::Timer(k)) + keys_of(g.callbacks).map_values(
        |k: u64| Node::Callback(k),
    ) + service_keys(g.edges).map_values(|k: u64| Node::Service(k))
}

/// The vertices numbered from one, in order.
pub open spec fn numbering(order: Seq<Node>) -> Seq<(Node, usize)> {
    Seq::new(order.len(), |i: int| (order[i], (i + 1) as usize))
}

/// Each vertex whose ROS node is known, with that node.
pub open spec fn ros_assignment(model: RosModel, order: Seq<Node>) -> Seq<(Node, u64)>
    decreases order.len(),
{
    if order.len() == 0 {
        Seq::empty()
    } else {
        let s = ros_assignment(model, order.drop_last());
        match model.node_of(order.last()) {
            Some(r) => s.push((order.last(), r)),
            None => s,
        }
    }
}

/// The values of `s`, each once, in the order in which they first appear.
pub open spec fn distinct_in_order(s: Seq<u64>) -> Seq<u64>
    decreases s.len(),
{
    if s.len() == 0 {
        Seq::empty()
    } else {
        let d = distinct_in_order(s.drop_last());
        if d.contains(s.last()) {
            d
        } else {
            d.push(s.last())
        }
    }
}

/// The values numbered from zero, in order.
pub open spec fn enumeration(s: Seq<u64>) -> Seq<(u64, usize)> {
    Seq::new(s.len(), |i: int| (s[i], i as usize))
}

/// The ROS nodes of a set of assigned vertices.
pub open spec fn assigned_nodes(a: Seq<(Node, u64)>) -> Seq<u64> {
    a.map_values(|e: (Node, u64)| e.1)
}

/// The drawing of the dependency graph: numbered vertices grouped by ROS
/// node, drawn edges, and the latency ranges edges are scaled to.
pub struct DotGraph {
    graph_node_to_ros_node: AssocMap<Node, u64>,
    node_to_id: AssocMap<Node, usize>,
    ros_nodes: Vec<u64>,
    ros_node_to_id: AssocMap<u64, usize>,
    ros_nodes_min_max_latency_stats: AssocMap<u64, EdgeWeightStats>,
    edge_ids: AssocMap<NodePair, usize>,
    edges: Vec<DisplayAsDotEdge>,
    pub_sub_latency_range: Option<(i64, i64)>,
    color: bool,
    thickness: bool,
}

proof fn lemma_service_keys(edges: Seq<(Edge, EdgeDataView)>)
    ensures
        service_keys(edges).no_duplicates(),
    decreases edges.len(),
{
    if edges.len() > 0 {
        lemma_service_keys(edges.drop_last());
    }
}

proof fn lemma_distinct_in_order(s: Seq<u64>)
    ensures
        distinct_in_order(s).no_duplicates(),
    decreases s.len(),
{
    if s.len() > 0 {
        lemma_distinct_in_order(s.drop_last());
    }
}

proof fn lemma_ros_assignment_keys(model: RosModel, order: Seq<Node>, v: Node)
    ensures
        has_key(ros_assignment(model, order), v) ==> order.contains(v),
    decreases order.len(),
{
    if order.len() > 0 {
        let s = ros_assignment(model, order.drop_last());
        lemma_ros_assignment_keys(model, order.drop_last(), v);
        if has_key(ros_assignment(model, order), v) {
            let j = choose|j: int| 0 <= j < ros_assignment(model, order).len() && ros_assignment(model, order)[j].0 == v;
            if j < s.len() {
                assert(has_key(s, v));
                let k = choose|k: int| 0 <= k < order.drop_last().len() && order.drop_last()[k] == v;
                assert(order[k] == v);
            } else {
                assert(order[order.len() - 1] == v);
            }
        }
    }
}

proof fn lemma_tagged_keys_distinct<V>(m: Seq<(u64, V)>, tag: spec_fn(u64) -> Node)
    requires
        keys_unique(m),
        forall|a: u64, b: u64| #[trigger] tag(a) == #[trigger] tag(b) ==> a == b,
    ensures
        keys_of(m).map_values(tag).no_duplicates(),
{
    let s = keys_of(m).map_values(tag);
    assert forall|i: int, j: int| 0 <= i < s.len() && 0 <= j < s.len() && i != j implies s[i] != s[j] by {
        assert(s[i] == tag(m[i].0));
        assert(s[j] == tag(m[j].0));
    }
}

proof fn lemma_concat_distinct(a: Seq<Node>, b: Seq<Node>)
    requires
        a.no_duplicates(),
        b.no_duplicates(),
        forall|i: int, j: int| 0 <= i < a.len() && 0 <= j < b.len() ==> a[i] != b[j],
    ensures
        (a + b).no_duplicates(),
{
    let s = a + b;
    assert forall|i: int, j: int| 0 <= i < s.len() && 0 <= j < s.len() && i != j implies s[i] != s[j] by {
        if i < a.len() && j >= a.len() {
            assert(s[j] == b[j - a.len()]);
        } else if j < a.len() && i >= a.len() {
            assert(s[i] == b[i - a.len()]);
        } else if i >= a.len() && j >= a.len() {
            assert(s[i] == b[i - a.len()]);
            assert(s[j] == b[j - a.len()]);
        }
    }
}

/// Every vertex of the drawing occurs once.
pub proof fn lemma_vertex_order_distinct(g: GraphView)
    requires
        keys_unique(g.publishers),
        keys_unique(g.subscribers),
        keys_unique(g.timers),
        keys_unique(g.callbacks),
    ensures
        vertex_order(g).no_duplicates(),
{
    let p = keys_of(g.publishers).map_values(|k: u64| Node::Publisher(k));
    let s = keys_of(g.subscribers).map_values(|k: u64| Node::Subscriber(k));
    let t = keys_of(g.timers).map_values(|k: u64| Node::Timer(k));
    let c = keys_of(g.callbacks).map_values(|k: u64| Node::Callback(k));
    let v = service_keys(g.edges).map_values(|k: u64| Node::Service(k));
    lemma_tagged_keys_distinct(g.publishers, |k: u64| Node::Publisher(k));
    lemma_tagged_keys_distinct(g.subscribers, |k: u64| Node::Subscriber(k));
    lemma_tagged_keys_distinct(g.timers, |k: u64| Node::Timer(k));
    lemma_tagged_keys_distinct(g.callbacks, |k: u64| Node::Callback(k));
    lemma_service_keys(g.edges);
    assert(v.no_duplicates()) by {
        let sk = service_keys(g.edges);
        assert forall|i: int, j: int| 0 <= i < v.len() && 0 <= j < v.len() && i != j implies v[i] != v[j] by {
            assert(v[i] == Node::Service(sk[i]));
            assert(v[j] == Node::Service(sk[j]));
        }
    }
    assert forall|i: int, j: int| 0 <= i < p.len() && 0 <= j < s.len() implies p[i] != s[j] by {
        assert(p[i] is Publisher);
        assert(s[j] is Subscriber);
    }
    lemma_concat_distinct(p, s);
    assert forall|i: int, j: int| 0 <= i < (p + s).len() && 0 <= j < t.len() implies (p + s)[i] != t[j] by {
        if i < p.len() {
            assert((p + s)[i] == p[i]);
            assert(p[i] is Publisher);
        } else {
            assert((p + s)[i] == s[i - p.len()]);
            assert(s[i - p.len()] is Subscriber);
        }
        assert(t[j] is Timer);
    }
    lemma_concat_distinct(p + s, t);
    assert forall|i: int, j: int| 0 <= i < (p + s + t).len() && 0 <= j < c.len() implies (p + s + t)[i] != c[j] by {
        if i < p.len() {
            assert((p + s + t)[i] == p[i]);
            assert(p[i] is Publisher);
        } else if i < p.len() + s.len() {
            assert((p + s + t)[i] == s[i - p.len()]);
            assert(s[i - p.len()] is Subscriber);
        } else {
            assert((p + s + t)[i] == t[i - p.len() - s.len()]);
            assert(t[i - p.len() - s.len()] is Timer);
        }
        assert(c[j] is Callback);
    }
    lemma_concat_distinct(p + s + t, c);
    assert forall|i: int, j: int| 0 <= i < (p + s + t + c).len() && 0 <= j < v.len() implies (p + s + t + c)[i] != v[j] by {
        if i < p.len() {
            assert((p + s + t + c)[i] == p[i]);
            assert(p[i] is Publisher);
        } else if i < p.len() + s.len() {
            assert((p + s + t + c)[i] == s[i - p.len()]);
            assert(s[i - p.len()] is Subscriber);
        } else if i < p.len() + s.len() + t.len() {
            assert((p + s + t + c)[i] == t[i - p.len() - s.len()]);
            assert(t[i - p.len() - s.len()] is Timer);
        } else {
            assert((p + s + t + c)[i] == c[i - p.len() - s.len() - t.len()]);
            assert(c[i - p.len() - s.len() - t.len()] is Callback);
        }
        assert(v[j] is Service);
    }
    lemma_concat_distinct(p + s + t + c, v);
}

fn contains_value(v: &Vec<u64>, x: u64) -> (r: bool)
    ensures
        r == v@.contains(x),
{
    let mut i: usize = 0;
    while i < v.len()
        invariant
            i <= v@.len(),
            forall|j: int| 0 <= j < i ==> v@[j] != x,
        decreases v@.len() - i,
    {
        if v[i] == x {
            assert(v@[i as int] == x);
            return true;
        }
        i = i + 1;
    }
    false
}

/// Appends the vertex of kind `t` of every key of a table.
fn append_vertices<V>(out: &mut Vec<Node>, keys: &AssocMap<u64, V>, t: NodeType)
    requires
        keys.wf(),
    ensures
        final(out)@ == old(out)@ + keys_of(keys.entries()).map_values(|k: u64| vertex_of(t, k)),
{
    let ghost o0 = out@;
    let mut i: usize = 0;
    while i < keys.len()
        invariant
            keys.wf(),
            i <= keys.entries().len(),
            out@ == o0 + keys_of(keys.entries()).take(i as int).map_values(|k: u64| vertex_of(t, k)),
        decreases keys.entries().len() - i,
    {
        let k = keys.key_at(i);
        let v = match t {
            NodeType::Publisher => Node::Publisher(k),
            NodeType::Subscriber => Node::Subscriber(k),
            NodeType::Service => Node::Service(k),
            NodeType::Timer => Node::Timer(k),
            NodeType::Callback => Node::Callback(k),
        };
        out.push(v);
        proof {
            assert(keys_of(keys.entries()).take(i + 1) =~= keys_of(keys.entries()).take(i as int).push(k));
            assert(out@ =~= o0 + keys_of(keys.entries()).take(i + 1).map_values(|k: u64| vertex_of(t, k)));
        }
        i = i + 1;
    }
    proof {
        assert(keys_of(keys.entries()).take(keys.entries().len() as int) =~= keys_of(keys.entries()));
    }
}

/// The vertices of the drawing of `graph`, in numbering order.
fn vertices_in_order(graph: &DependencyGraph) -> (v: Vec<Node>)
    requires
        graph.wf(),
    ensures
        v@ == vertex_order(graph@),
{
    let mut out: Vec<Node> = Vec::new();
    let publishers = graph.publishers_table();
    let subscribers = graph.subscribers_table();
    let timers = graph.timers_table();
    let callbacks = graph.callbacks_table();
    let edges = graph.edges_table();
    append_vertices(&mut out, publishers, NodeType::Publisher);
    append_vertices(&mut out, subscribers, NodeType::Subscriber);
    append_vertices(&mut out, timers, NodeType::Timer);
    append_vertices(&mut out, callbacks, NodeType::Callback);
    let ghost before = out@;
    let mut services: Vec<u64> = Vec::new();
    let ghost es = viewed(edges.entries());
    proof {
        lemma_viewed_keys(edges.entries());
        assert(es.take(0) =~= Seq::<(Edge, EdgeDataView)>::empty());
    }
    let mut i: usize = 0;
    while i < edges.len()
        invariant
            edges.wf(),
            es == viewed(edges.entries()),
            i <= es.len(),
            services@ == service_keys(es.take(i as int)),
        decreases es.len() - i,
    {
        proof {
            assert(es.take(i + 1).drop_last() =~= es.take(i as int));
            assert(es[i as int].0 == edges.entries()[i as int].0);
        }
        match edges.key_at(i) {
            Edge::ServiceCallbackInvocation(sv, _) => {
                if !contains_value(&services, sv) {
                    services.push(sv);
                }
            },
            _ => {},
        }
        i = i + 1;
    }
    proof {
        assert(es.take(es.len() as int) =~= es);
    }
    let mut j: usize = 0;
    while j < services.len()
        invariant
            j <= services@.len(),
            out@ == before + services@.take(j as int).map_values(|k: u64| Node::Service(k)),
        decreases services@.len() - j,
    {
        out.push(Node::Service(services[j]));
        proof {
            assert(services@.take(j + 1) =~= services@.take(j as int).push(services@[j as int]));
            assert(out@ =~= before + services@.take(j + 1).map_values(|k: u64| Node::Service(k)));
        }
        j = j + 1;
    }
    proof {
        assert(services@.take(services@.len() as int) =~= services@);
        lemma_viewed_keys(publishers.entries());
        lemma_viewed_keys(subscribers.entries());
        lemma_viewed_keys(timers.entries());
        lemma_viewed_keys(callbacks.entries());
        assert(keys_of(publishers.entries()).map_values(|k: u64| vertex_of(NodeType::Publisher, k))
            =~= keys_of(graph@.publishers).map_values(|k: u64| Node::Publisher(k)));
        assert(keys_of(subscribers.entries()).map_values(|k: u64| vertex_of(NodeType::Subscriber, k))
            =~= keys_of(graph@.subscribers).map_values(|k: u64| Node::Subscriber(k)));
        assert(keys_of(timers.entries()).map_values(|k: u64| vertex_of(NodeType::Timer, k))
            =~= keys_of(graph@.timers).map_values(|k: u64| Node::Timer(k)));
        assert(keys_of(callbacks.entries()).map_values(|k: u64| vertex_of(NodeType::Callback, k))
            =~= keys_of(graph@.callbacks).map_values(|k: u64| Node::Callback(k)));
        assert(out@ =~= vertex_order(graph@));
    }
    out
}

/// Whether the graph can be drawn with the model: the model describes every
/// vertex and knows the ROS node of every timer and callback, and the
/// vertices and edges can be numbered.
pub fn can_draw(graph: &DependencyGraph, model: &RosModel) -> (r: bool)
    requires
        graph.wf(),
        model.wf(),
    ensures
        r == (model_covers(*model, vertex_order(graph@)) && vertex_order(graph@).len() < usize::MAX
            && graph@.edges.len() < usize::MAX),
{
    let order = vertices_in_order(graph);
    let edges = graph.edges_table();
    proof {
        lemma_viewed_keys(edges.entries());
    }
    if order.len() == usize::MAX || edges.len() == usize::MAX {
        return false;
    }
    let mut i: usize = 0;
    while i < order.len()
        invariant
            model.wf(),
            order@ == vertex_order(graph@),
            order@.len() < usize::MAX,
            graph@.edges.len() < usize::MAX,
            i <= order@.len(),
            forall|j: int|
                0 <= j < i ==> model.describes(#[trigger] order@[j]) && (order@[j] is Timer
                    || order@[j] is Callback ==> model.node_of(order@[j]) is Some),
        decreases order@.len() - i,
    {
        let v = order[i];
        if !model.has_entity(v) {
            assert(!model_covers(*model, order@)) by {
                assert(order@[i as int] == v);
            }
            return false;
        }
        let needs_node = match v {
            Node::Timer(_) => true,
            Node::Callback(_) => true,
            _ => false,
        };
        if needs_node && model.entity_node(v).is_none() {
            assert(!model_covers(*model, order@)) by {
                assert(order@[i as int] == v);
            }
            return false;
        }
        i = i + 1;
    }
    true
}

/// The model describes every vertex of the drawing, and knows the ROS node
/// of every timer and callback.
pub open spec fn model_covers(model: RosModel, order: Seq<Node>) -> bool {
    forall|i: int|
        0 <= i < order.len() ==> model.describes(#[trigger] order[i]) && (order[i] is Timer
            || order[i] is Callback ==> model.node_of(order[i]) is Some)
}

impl DotGraph {
    pub closed spec fn spec_node_ids(&self) -> Seq<(Node, usize)> {
        self.node_to_id.entries()
    }

    pub closed spec fn spec_graph_node_to_ros_node(&self) -> Seq<(Node, u64)> {
        self.graph_node_to_ros_node.entries()
    }

    pub closed spec fn spec_ros_nodes(&self) -> Seq<u64> {
        self.ros_nodes@
    }

    pub closed spec fn spec_ros_node_to_id(&self) -> Seq<(u64, usize)> {
        self.ros_node_to_id.entries()
    }

    pub closed spec fn spec_stats(&self) -> Seq<(u64, EdgeWeightStats)> {
        self.ros_nodes_min_max_latency_stats.entries()
    }

    pub closed spec fn spec_edge_ids(&self) -> Seq<(NodePair, usize)> {
        self.edge_ids.entries()
    }

    pub closed spec fn spec_edges(&self) -> Seq<DotEdgeView> {
        self.edges@.map_values(|e: DisplayAsDotEdge| e@)
    }

    pub closed spec fn spec_pub_sub_latency_range(&self) -> Option<(i64, i64)> {
        self.pub_sub_latency_range
    }

    pub closed spec fn spec_color(&self) -> bool {
        self.color
    }

    pub closed spec fn spec_thickness(&self) -> bool {
        self.thickness
    }

    pub closed spec fn wf(&self) -> bool {
        &&& self.graph_node_to_ros_node.wf()
        &&& self.node_to_id.wf()
        &&& self.ros_node_to_id.wf()
        &&& self.ros_nodes_min_max_latency_stats.wf()
        &&& self.edge_ids.wf()
        &&& forall|i: int| 0 <= i < self.edges@.len() ==> (#[trigger] self.edges@[i]).latencies@.len() > 0
    }

    /// Every drawn edge has at least one latency.
    pub proof fn lemma_edges_sampled(&self)
        requires
            self.wf(),
        ensures
            forall|i: int| 0 <= i < self.spec_edges().len() ==> (#[trigger] self.spec_edges()[i]).latencies.len() > 0,
    {
        assert forall|i: int| 0 <= i < self.spec_edges().len() implies (#[trigger] self.spec_edges()[i]).latencies.len() > 0 by {
            assert(self.spec_edges()[i] == self.edges@[i]@);
        }
    }

    /// The drawing of `graph`: its vertices numbered from one (publishers,
    /// subscribers, timers, callbacks, then the services edges invoke
    /// callbacks for); each vertex whose ROS node is known assigned to it;
    /// the ROS nodes used, each once, numbered from zero; and the edges
    /// processed in order.
    pub fn new(graph: &DependencyGraph, model: &RosModel, color: bool, thickness: bool) -> (d: DotGraph)
        requires
            graph.wf(),
            model.wf(),
            model_covers(*model, vertex_order(graph@)),
            vertex_order(graph@).len() < usize::MAX,
            graph@.edges.len() < usize::MAX,
        ensures
            d.wf(),
            d.spec_node_ids() == numbering(vertex_order(graph@)),
            d.spec_graph_node_to_ros_node() == ros_assignment(*model, vertex_order(graph@)),
            d.spec_ros_nodes() == distinct_in_order(
                assigned_nodes(ros_assignment(*model, vertex_order(graph@))),
            ),
            d.spec_ros_node_to_id() == enumeration(d.spec_ros_nodes()),
            ({
                let st = processed_edges(
                    graph@.edges,
                    d.spec_graph_node_to_ros_node(),
                    d.spec_ros_node_to_id(),
                    d.spec_node_ids(),
                );
                &&& d.spec_edges() == st.edges
                &&& d.spec_stats() == st.stats
                &&& d.spec_pub_sub_latency_range() == valid_range(st.pub_sub)
                &&& d.spec_edge_ids() == st.edge_ids
            }),
            d.spec_color() == color,
            d.spec_thickness() == thickness,
            forall|i: int|
                0 <= i < d.spec_edges().len() ==> exists|j: int|
                    0 <= j < graph@.edges.len() && graph@.edges[j].1.latencies.len() > 0
                        && (#[trigger] d.spec_edges()[i]).latencies == sorted_values(graph@.edges[j].1.latencies),
            forall|i: int|
                0 <= i < d.spec_edges().len() && ((#[trigger] d.spec_edges()[i]).edge_type
                    == EdgeType::PublisherSubscriberCommunication || d.spec_edges()[i].node_index is Some)
                    ==> match scale_range(
                    d.spec_pub_sub_latency_range(),
                    d.spec_ros_nodes(),
                    d.spec_stats(),
                    d.spec_edges()[i],
                ) {
                    Some(range) => range.0 <= drawn_median(d.spec_edges()[i]) <= range.1,
                    None => false,
                },
    {
        let order = vertices_in_order(graph);
        let ghost ord = order@;
        proof {
            graph.lemma_tables_unique();
            lemma_vertex_order_distinct(graph@);
        }
        let mut node_to_id: AssocMap<Node, usize> = AssocMap::new();
        let mut graph_node_to_ros_node: AssocMap<Node, u64> = AssocMap::new();
        let mut i: usize = 0;
        proof {
            assert(numbering(ord).take(0) =~= node_to_id.entries());
            assert(ord.take(0) =~= Seq::<Node>::empty());
        }
        while i < order.len()
            invariant
                model.wf(),
                ord == order@,
                ord.no_duplicates(),
                ord.len() < usize::MAX,
                model_covers(*model, ord),
                i <= ord.len(),
                node_to_id.wf(),
                graph_node_to_ros_node.wf(),
                node_to_id.entries() == numbering(ord).take(i as int),
                graph_node_to_ros_node.entries() == ros_assignment(*model, ord.take(i as int)),
            decreases ord.len() - i,
        {
            let v = order[i];
            proof {
                if has_key(node_to_id.entries(), v) {
                    let j = choose|j: int| 0 <= j < node_to_id.entries().len() && node_to_id.entries()[j].0 == v;
                    assert(ord[j] == v);
                }
                lemma_ros_assignment_keys(*model, ord.take(i as int), v);
                if ord.take(i as int).contains(v) {
                    let j = choose|j: int| 0 <= j < ord.take(i as int).len() && ord.take(i as int)[j] == v;
                    assert(ord[j] == v);
                }
                assert(ord.take(i + 1).drop_last() =~= ord.take(i as int));
                assert(ord.take(i + 1).last() == v);
            }
            node_to_id.push(v, i + 1);
            proof {
                assert(node_to_id.entries() =~= numbering(ord).take(i + 1));
            }
            match model.entity_node(v) {
                Some(r) => {
                    graph_node_to_ros_node.push(v, r);
                },
                None => {},
            }
            i = i + 1;
        }
        proof {
            assert(ord.take(ord.len() as int) =~= ord);
            assert(numbering(ord).take(ord.len() as int) =~= numbering(ord));
        }
        let ghost assigned = assigned_nodes(graph_node_to_ros_node.entries());
        let mut ros_nodes: Vec<u64> = Vec::new();
        let mut k: usize = 0;
        proof {
            assert(assigned.take(0) =~= Seq::<u64>::empty());
        }
        while k < graph_node_to_ros_node.len()
            invariant
                graph_node_to_ros_node.wf(),
                assigned == assigned_nodes(graph_node_to_ros_node.entries()),
                k <= assigned.len(),
                ros_nodes@ == distinct_in_order(assigned.take(k as int)),
            decreases assigned.len() - k,
        {
            proof {
                assert(assigned.take(k + 1).drop_last() =~= assigned.take(k as int));
            }
            let r = *graph_node_to_ros_node.value_at(k);
            if !contains_value(&ros_nodes, r) {
                ros_nodes.push(r);
            }
            k = k + 1;
        }
        proof {
            assert(assigned.take(assigned.len() as int) =~= assigned);
            lemma_distinct_in_order(assigned);
        }
        let mut ros_node_to_id: AssocMap<u64, usize> = AssocMap::new();
        let mut m: usize = 0;
        proof {
            assert(enumeration(ros_nodes@).take(0) =~= ros_node_to_id.entries());
        }
        while m < ros_nodes.len()
            invariant
                ros_nodes@.no_duplicates(),
                m <= ros_nodes@.len(),
                ros_node_to_id.wf(),
                ros_node_to_id.entries() == enumeration(ros_nodes@).take(m as int),
            decreases ros_nodes@.len() - m,
        {
            let r = ros_nodes[m];
            proof {
                if has_key(ros_node_to_id.entries(), r) {
                    let j = choose|j: int| 0 <= j < ros_node_to_id.entries().len() && ros_node_to_id.entries()[j].0 == r;
                    assert(ros_nodes@[j] == r);
                }
            }
            ros_node_to_id.push(r, m);
            proof {
                assert(ros_node_to_id.entries() =~= enumeration(ros_nodes@).take(m + 1));
            }
            m = m + 1;
        }
        proof {
            assert(enumeration(ros_nodes@).take(ros_nodes@.len() as int) =~= enumeration(ros_nodes@));
        }
        let table = graph.edges_table();
        let (edges, stats, pub_sub_latency_range, edge_ids) = process_edges(
            table,
            &graph_node_to_ros_node,
            &ros_node_to_id,
            &node_to_id,
        );
        proof {
            let st = processed_edges(
                viewed(table.entries()),
                graph_node_to_ros_node.entries(),
                ros_node_to_id.entries(),
                node_to_id.entries(),
            );
            lemma_processed_edges(
                viewed(table.entries()),
                graph_node_to_ros_node.entries(),
                ros_node_to_id.entries(),
                node_to_id.entries(),
            );
            assert forall|i: int| 0 <= i < edges@.len() implies (#[trigger] edges@[i]).latencies@.len() > 0 by {
                assert(edges@.map_values(|e: DisplayAsDotEdge| e@)[i] == st.edges[i]);
            }
            lemma_drawn_latencies(
                viewed(table.entries()),
                graph_node_to_ros_node.entries(),
                ros_node_to_id.entries(),
                node_to_id.entries(),
            );
            assert forall|i: int|
                0 <= i < st.edges.len() && ((#[trigger] st.edges[i]).edge_type
                    == EdgeType::PublisherSubscriberCommunication || st.edges[i].node_index is Some)
                    implies match scale_range(valid_range(st.pub_sub), ros_nodes@, st.stats, st.edges[i]) {
                    Some(range) => range.0 <= drawn_median(st.edges[i]) <= range.1,
                    None => false,
                } by {
                law_edges_within_their_range(
                    viewed(table.entries()),
                    graph_node_to_ros_node.entries(),
                    ros_nodes@,
                    node_to_id.entries(),
                    i,
                );
            }
        }
        DotGraph {
            graph_node_to_ros_node,
            node_to_id,
            ros_nodes,
            ros_node_to_id,
            ros_nodes_min_max_latency_stats: stats,
            edge_ids,
            edges,
            pub_sub_latency_range,
            color,
            thickness,
        }
    }

    /// The identifier of every vertex.
    pub fn node_ids(&self) -> (m: &AssocMap<Node, usize>)
        requires
            self.wf(),
        ensures
            m.wf(),
            m.entries() == self.spec_node_ids(),
    {
        &self.node_to_id
    }

    /// The identifier of every drawn pair of vertices.
    pub fn edge_ids(&self) -> (m: &AssocMap<NodePair, usize>)
        requires
            self.wf(),
        ensures
            m.wf(),
            m.entries() == self.spec_edge_ids(),
    {
        &self.edge_ids
    }

    /// The ROS node of every vertex whose node is known.
    pub fn graph_node_to_ros_node(&self) -> (m: &AssocMap<Node, u64>)
        requires
            self.wf(),
        ensures
            m.wf(),
            m.entries() == self.spec_graph_node_to_ros_node(),
    {
        &self.graph_node_to_ros_node
    }

    /// The ROS nodes used, in order.
    pub fn ros_nodes(&self) -> (v: &Vec<u64>)
        ensures
            v@ == self.spec_ros_nodes(),
    {
        &self.ros_nodes
    }

    /// The number of every ROS node used.
    pub fn ros_node_to_id(&self) -> (m: &AssocMap<u64, usize>)
        requires
            self.wf(),
        ensures
            m.wf(),
            m.entries() == self.spec_ros_node_to_id(),
    {
        &self.ros_node_to_id
    }

    /// The latency ranges inside each ROS node.
    pub fn ros_nodes_min_max_latency_stats(&self) -> (m: &AssocMap<u64, EdgeWeightStats>)
        requires
            self.wf(),
        ensures
            m.wf(),
            m.entries() == self.spec_stats(),
    {
        &self.ros_nodes_min_max_latency_stats
    }

    /// The drawn edges, in order.
    pub fn edges(&self) -> (e: &Vec<DisplayAsDotEdge>)
        ensures
            e@.map_values(|x: DisplayAsDotEdge| x@) == self.spec_edges(),
    {
        &self.edges
    }

    /// The range of the median latencies of the publisher-to-subscriber
    /// edges, where there is any.
    pub fn pub_sub_latency_range(&self) -> (r: Option<(i64, i64)>)
        ensures
            r == self.spec_pub_sub_latency_range(),
    {
        self.pub_sub_latency_range
    }

    /// Whether colouring the edges by latency was asked for. No colour
    /// gradient is part of this library, so the DOT text carries no colour
    /// whatever this says.
    pub fn color(&self) -> (c: bool)
        ensures
            c == self.spec_color(),
    {
        self.color
    }

    /// Whether edges are thickened by latency.
    pub fn thickness(&self) -> (t: bool)
        ensures
            t == self.spec_thickness(),
    {
        self.thickness
    }

    /// The latency range that the thickness of drawn edge `i` is scaled
    /// to (and a colour would be, were one drawn).
    pub fn edge_scale_range(&self, i: usize) -> (r: Option<(i64, i64)>)
        requires
            self.wf(),
            i < self.spec_edges().len(),
        ensures
            r == scale_range(
                self.spec_pub_sub_latency_range(),
                self.spec_ros_nodes(),
                self.spec_stats(),
                self.spec_edges()[i as int],
            ),
    {
        let edge = &self.edges[i];
        assert(edge@ == self.spec_edges()[i as int]);
        match edge.edge_type {
            EdgeType::PublisherSubscriberCommunication => self.pub_sub_latency_range,
            _ => match edge.node_index {
                Some(k) => {
                    if k < self.ros_nodes.len() {
                        match self.ros_nodes_min_max_latency_stats.get(&self.ros_nodes[k]) {
                            Some(stats) => stats.range_for_type(edge.edge_type),
                            None => None,
                        }
                    } else {
                        None
                    }
                },
                None => None,
            },
        }
    }
}

/// The range an edge is scaled to: that of all publisher-to-subscriber
/// edges for such an edge; for another, the range of its kind inside the ROS
/// node it lies in, where it lies in one.
pub open spec fn scale_range(
    pub_sub: Option<(i64, i64)>,
    ros_nodes: Seq<u64>,
    stats: Seq<(u64, EdgeWeightStats)>,
    e: DotEdgeView,
) -> Option<(i64, i64)> {
    match e.edge_type {
        EdgeType::PublisherSubscriberCommunication => pub_sub,
        _ => match e.node_index {
            Some(k) => if k < ros_nodes.len() {
                match lookup(stats, ros_nodes[k as int]) {
                    Some(s) => s.spec_range_for_type(e.edge_type),
                    None => None,
                }
            } else {
                None
            },
            None => None,
        },
    }
}

/// The vertex identifiers in each ROS node's cluster: each assigned vertex
/// with an identifier goes, in order, to the cluster of its node's number.
pub open spec fn clusters_of(
    g2r: Seq<(Node, u64)>,
    r2id: Seq<(u64, usize)>,
    n2id: Seq<(Node, usize)>,
    count: nat,
) -> Seq<Seq<usize>>
    decreases g2r.len(),
{
    if g2r.len() == 0 {
        Seq::new(count, |i: int| Seq::<usize>::empty())
    } else {
        let c = clusters_of(g2r.drop_last(), r2id, n2id, count);
        let (node, ros) = g2r.last();
        match (lookup(r2id, ros), lookup(n2id, node)) {
            (Some(id), Some(v)) => if id < count {
                c.update(id as int, c[id as int].push(v))
            } else {
                c
            },
            _ => c,
        }
    }
}

/// The label of a vertex: its kind on one line and, on the next, what it
/// carries: a topic, a timer's period written as a duration, a caller or a
/// service name.
pub open spec fn node_label(model: RosModel, n: Node) -> Seq<char> {
    match n {
        Node::Publisher(_) => "Publisher\n"@ + model.carried_text(n),
        Node::Subscriber(_) => "Subscriber\n"@ + model.carried_text(n),
        Node::Timer(k) => "Timer\n"@ + lookup(model.timers.entries(), k).unwrap().period_text@,
        Node::Callback(k) => "Callback\n"@ + match lookup(model.callbacks.entries(), k).unwrap().caller {
            Some(c) => c.text@,
            None => model.unknown@,
        },
        Node::Service(_) => "Service\n"@ + model.carried_text(n),
    }
}

/// The tooltip of a vertex: for a service, the name of its ROS node and a
/// pointer to its callback; for others, nothing.
pub open spec fn node_tooltip(n: Node, ros_node_name: Seq<char>) -> Seq<char> {
    match n {
        Node::Service(_) => "Node: "@ + ros_node_name + "\nSee callback for details"@,
        _ => Seq::empty(),
    }
}

/// The label and the tooltip of a vertex the model describes; a timer's
/// period must be known.
pub fn get_node_name_and_tooltip(model: &RosModel, node: Node, ros_node_name: &String) -> (r: (String, String))
    requires
        model.wf(),
        model.describes(node),
        model.period_known(node),
    ensures
        r.0@ == node_label(*model, node),
        r.1@ == node_tooltip(node, ros_node_name@),
{
    let (kind, text) = match node {
        Node::Publisher(_) => ("Publisher\n", model.text_carried(node)),
        Node::Subscriber(_) => ("Subscriber\n", model.text_carried(node)),
        Node::Timer(k) => ("Timer\n", model.timers.get(&k).unwrap().period_text.clone()),
        Node::Callback(k) => {
            let text = match &model.callbacks.get(&k).unwrap().caller {
                Some(c) => c.text.clone(),
                None => model.unknown.clone(),
            };
            ("Callback\n", text)
        },
        Node::Service(_) => ("Service\n", model.text_carried(node)),
    };
    let mut name = kind.to_owned();
    name.append(text.as_str());
    let tooltip = match node {
        Node::Service(_) => {
            let mut t = "Node: ".to_owned();
            t.append(ros_node_name.as_str());
            t.append("\nSee callback for details");
            t
        },
        _ => String::new(),
    };
    (name, tooltip)
}

/// The ROS node name of a vertex as shown: its node's name, or the text for
/// an unknown name.
pub fn get_node_name_from_graph_node(model: &RosModel, node: Node) -> (s: String)
    requires
        model.wf(),
        model.describes(node),
    ensures
        s@ == model.node_name_shown(model.node_of(node)),
{
    model.name_shown(model.entity_node(node))
}

proof fn lemma_clusters_len(g2r: Seq<(Node, u64)>, r2id: Seq<(u64, usize)>, n2id: Seq<(Node, usize)>, count: nat)
    ensures
        clusters_of(g2r, r2id, n2id, count).len() == count,
    decreases g2r.len(),
{
    if g2r.len() > 0 {
        lemma_clusters_len(g2r.drop_last(), r2id, n2id, count);
    }
}

impl DotGraph {
    /// The vertex identifiers of each ROS node's cluster, by the node's
    /// number.
    pub fn clusters(&self) -> (r: Vec<Vec<usize>>)
        requires
            self.wf(),
        ensures
            r@.len() == self.spec_ros_node_to_id().len(),
            forall|c: int|
                0 <= c < r@.len() ==> (#[trigger] r@[c])@ == clusters_of(
                    self.spec_graph_node_to_ros_node(),
                    self.spec_ros_node_to_id(),
                    self.spec_node_ids(),
                    self.spec_ros_node_to_id().len(),
                )[c],
    {
        let count = self.ros_node_to_id.len();
        let ghost g2r = self.graph_node_to_ros_node.entries();
        let ghost r2id = self.ros_node_to_id.entries();
        let ghost n2id = self.node_to_id.entries();
        let mut clusters: Vec<Vec<usize>> = Vec::new();
        let mut c: usize = 0;
        while c < count
            invariant
                c <= count,
                clusters@.len() == c,
                forall|k: int| 0 <= k < c ==> (#[trigger] clusters@[k])@ == Seq::<usize>::empty(),
            decreases count - c,
        {
            clusters.push(Vec::new());
            c = c + 1;
        }
        proof {
            assert(g2r.take(0) =~= Seq::<(Node, u64)>::empty());
        }
        let mut i: usize = 0;
        while i < self.graph_node_to_ros_node.len()
            invariant
                self.wf(),
                g2r == self.graph_node_to_ros_node.entries(),
                r2id == self.ros_node_to_id.entries(),
                n2id == self.node_to_id.entries(),
                count == r2id.len(),
                i <= g2r.len(),
                clusters@.len() == count,
                forall|k: int|
                    0 <= k < count ==> (#[trigger] clusters@[k])@ == clusters_of(
                        g2r.take(i as int),
                        r2id,
                        n2id,
                        count as nat,
                    )[k],
            decreases g2r.len() - i,
        {
            proof {
                assert(g2r.take(i + 1).drop_last() =~= g2r.take(i as int));
                assert(g2r.take(i + 1).last() == g2r[i as int]);
            }
            let node = self.graph_node_to_ros_node.key_at(i);
            let ros = *self.graph_node_to_ros_node.value_at(i);
            let ghost prev = clusters_of(g2r.take(i as int), r2id, n2id, count as nat);
            proof {
                lemma_clusters_len(g2r.take(i as int), r2id, n2id, count as nat);
            }
            let cluster = self.ros_node_to_id.get(&ros);
            let vertex = self.node_to_id.get(&node);
            if cluster.is_some() && vertex.is_some() {
                let id = *cluster.unwrap();
                let v = *vertex.unwrap();
                if id < count {
                    let ghost before = clusters@;
                    let mut members: Vec<usize> = Vec::new();
                    std::mem::swap(&mut members, &mut clusters[id]);
                    members.push(v);
                    clusters.set(id, members);
                    proof {
                        assert(members@ =~= prev[id as int].push(v));
                        assert forall|k: int| 0 <= k < count implies (#[trigger] clusters@[k])@ == clusters_of(
                            g2r.take(i + 1),
                            r2id,
                            n2id,
                            count as nat,
                        )[k] by {
                            if k != id {
                                assert(clusters@[k] == before[k]);
                            }
                        }
                    }
                }
            }
            i = i + 1;
        }
        proof {
            assert(g2r.take(g2r.len() as int) =~= g2r);
        }
        clusters
    }
}

impl DependencyGraph {
    /// The drawing of this graph (see `DotGraph::new`).
    pub fn to_dot_graph(&self, model: &RosModel, color: bool, thickness: bool) -> (d: DotGraph)
        requires
            self.wf(),
            model.wf(),
            model_covers(*model, vertex_order(self@)),
            vertex_order(self@).len() < usize::MAX,
            self@.edges.len() < usize::MAX,
        ensures
            d.wf(),
            d.spec_node_ids() == numbering(vertex_order(self@)),
            d.spec_graph_node_to_ros_node() == ros_assignment(*model, vertex_order(self@)),
            d.spec_ros_nodes() == distinct_in_order(assigned_nodes(ros_assignment(*model, vertex_order(self@)))),
            d.spec_ros_node_to_id() == enumeration(d.spec_ros_nodes()),
            ({
                let st = processed_edges(
                    self@.edges,
                    d.spec_graph_node_to_ros_node(),
                    d.spec_ros_node_to_id(),
                    d.spec_node_ids(),
                );
                &&& d.spec_edges() == st.edges
                &&& d.spec_stats() == st.stats
                &&& d.spec_pub_sub_latency_range() == valid_range(st.pub_sub)
                &&& d.spec_edge_ids() == st.edge_ids
            }),
            d.spec_color() == color,
            d.spec_thickness() == thickness,
    {
        DotGraph::new(self, model, color, thickness)
    }
}

} // verus!
