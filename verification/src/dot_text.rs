//! The DOT text of a drawing of the dependency graph: one line per vertex
//! with its label and tooltip, one per edge with its latencies, and one
//! cluster per ROS node.
use vstd::prelude::*;
use crate::assoc::{lookup, AssocMap};
use crate::decimal::{decimal, push_decimal, push_signed_decimal, signed_decimal};
use crate::dependency_graph::{Edge, EdgeDataView, Node};
use crate::dot_graph::{
    clusters_of, get_node_name_and_tooltip, lemma_drawn_latencies, processed_edges, node_label, node_tooltip, DotEdgeView, DotGraph,
};
use crate::model::RosModel;
use crate::plotting::plots::{lemma_seq_min_max, seq_max, seq_min};
use crate::statistics::{ascending, lemma_sorted_values, median_of, sorted_values};

verus! {

/// A character as written inside a quoted DOT string.
pub open spec fn escape_char(c: char) -> Seq<char> {
    if c == '\\' {
        "\\\\"@
    } else if c == '"' {
        "\\\""@
    } else if c == '\n' {
        "\\n"@
    } else {
        seq![c]
    }
}

/// A text with its backslashes, quotes and line breaks escaped.
pub open spec fn escaped(s: Seq<char>) -> Seq<char>
    decreases s.len(),
{
    if s.len() == 0 {
        Seq::empty()
    } else {
        escaped(s.drop_last()) + escape_char(s.last())
    }
}

/// A text as a quoted DOT string.
pub open spec fn quoted(s: Seq<char>) -> Seq<char> {
    "\""@ + escaped(s) + "\""@
}

/// The name of the ROS node of a vertex as shown in its tooltip.
pub open spec fn ros_name_of(model: RosModel, g2r: Seq<(Node, u64)>, n: Node) -> Seq<char> {
    match lookup(g2r, n) {
        Some(r) => model.node_name_shown(Some(r)),
        None => model.unknown@,
    }
}

/// The line of a vertex and its identifier.
pub open spec fn vertex_line(model: RosModel, g2r: Seq<(Node, u64)>, v: (Node, usize)) -> Seq<char> {
    "  n"@ + decimal(v.1 as nat) + " [label="@ + quoted(node_label(model, v.0))
        + ", shape=\"ellipse\", tooltip="@ + quoted(node_tooltip(v.0, ros_name_of(model, g2r, v.0)))
        + "];\n"@
}

/// The lines of the first `n` vertices.
pub open spec fn vertex_lines(model: RosModel, g2r: Seq<(Node, u64)>, vs: Seq<(Node, usize)>, n: nat) -> Seq<char>
    decreases n,
{
    if n == 0 {
        Seq::empty()
    } else {
        vertex_lines(model, g2r, vs, (n - 1) as nat) + vertex_line(model, g2r, vs[n - 1])
    }
}

/// The tooltip of an edge: its least, median and greatest latency.
pub open spec fn latency_tooltip(ls: Seq<i64>) -> Seq<char> {
    "Latency:\nmin: "@ + signed_decimal(ls[0] as int) + " ns\nmedian: "@ + signed_decimal(
        ls[(ls.len() / 2) as int] as int,
    ) + " ns\nmax: "@ + signed_decimal(ls[ls.len() - 1] as int) + " ns"@
}

/// The least and the greatest sample of a series are the first and the last
/// of it sorted, and bracket its median.
pub proof fn lemma_sorted_extremes(l: Seq<i64>)
    requires
        l.len() > 0,
    ensures
        sorted_values(l)[0] == seq_min(l),
        sorted_values(l)[l.len() - 1] == seq_max(l),
        seq_min(l) <= median_of(l) <= seq_max(l),
{
    broadcast use vstd::seq_lib::group_to_multiset_ensures;

    let s = sorted_values(l);
    lemma_sorted_values(l);
    lemma_seq_min_max(l);
    let n = l.len() as int;
    assert(s.contains(s[0]));
    assert(s.to_multiset().count(s[0]) > 0);
    assert(l.to_multiset().count(s[0]) > 0);
    assert(l.contains(s[0]));
    assert(s.contains(s[n - 1]));
    assert(s.to_multiset().count(s[n - 1]) > 0);
    assert(l.to_multiset().count(s[n - 1]) > 0);
    assert(l.contains(s[n - 1]));
    let i = choose|i: int| 0 <= i < l.len() && l[i] == seq_min(l);
    let j = choose|j: int| 0 <= j < l.len() && l[j] == seq_max(l);
    assert(l.contains(l[i]));
    assert(l.to_multiset().count(l[i]) > 0);
    assert(s.to_multiset().count(l[i]) > 0);
    assert(s.contains(l[i]));
    assert(l.contains(l[j]));
    assert(l.to_multiset().count(l[j]) > 0);
    assert(s.to_multiset().count(l[j]) > 0);
    assert(s.contains(l[j]));
    let a = choose|a: int| 0 <= a < s.len() && s[a] == l[i];
    let b = choose|b: int| 0 <= b < s.len() && s[b] == l[j];
    if a > 0 {
        assert(ascending()(s[0], s[a]));
    }
    if b < n - 1 {
        assert(ascending()(s[b], s[n - 1]));
    }
    let h = n / 2;
    if 0 < h {
        assert(ascending()(s[0], s[h]));
    }
    if h < n - 1 {
        assert(ascending()(s[h], s[n - 1]));
    }
}

/// The tooltip of an edge names, in this order, the least latency of the
/// edge, its median and its greatest latency, whatever order the latencies
/// were recorded in.
pub proof fn law_latency_tooltip(l: Seq<i64>)
    requires
        l.len() > 0,
    ensures
        latency_tooltip(sorted_values(l)) == "Latency:\nmin: "@ + signed_decimal(seq_min(l) as int)
            + " ns\nmedian: "@ + signed_decimal(median_of(l) as int) + " ns\nmax: "@ + signed_decimal(
            seq_max(l) as int,
        ) + " ns"@,
        seq_min(l) <= median_of(l) <= seq_max(l),
{
    lemma_sorted_extremes(l);
    lemma_sorted_values(l);
}

/// The tooltip of every drawn edge names the least, the median and the
/// greatest latency recorded on the edge of the graph it draws.
pub proof fn law_drawn_edge_tooltips(
    edges: Seq<(Edge, EdgeDataView)>,
    g2r: Seq<(Node, u64)>,
    r2id: Seq<(u64, usize)>,
    n2id: Seq<(Node, usize)>,
    i: int,
)
    requires
        0 <= i < processed_edges(edges, g2r, r2id, n2id).edges.len(),
    ensures
        exists|j: int|
            0 <= j < edges.len() && #[trigger] latency_tooltip(
                processed_edges(edges, g2r, r2id, n2id).edges[i].latencies,
            ) == "Latency:\nmin: "@ + signed_decimal(seq_min(edges[j].1.latencies) as int) + " ns\nmedian: "@
                + signed_decimal(median_of(edges[j].1.latencies) as int) + " ns\nmax: "@ + signed_decimal(
                seq_max(edges[j].1.latencies) as int,
            ) + " ns"@,
{
    lemma_drawn_latencies(edges, g2r, r2id, n2id);
    let st = processed_edges(edges, g2r, r2id, n2id);
    let j = choose|j: int|
        0 <= j < edges.len() && edges[j].1.latencies.len() > 0 && (#[trigger] st.edges[i]).latencies
            == sorted_values(edges[j].1.latencies);
    law_latency_tooltip(edges[j].1.latencies);
}

/// The pen width attribute of an edge, where it has one.
pub open spec fn pen_part(pen: Option<String>) -> Seq<char> {
    match pen {
        Some(w) => ", penwidth="@ + quoted(w@),
        None => Seq::empty(),
    }
}

/// The line of an edge.
pub open spec fn edge_line(e: DotEdgeView, pen: Option<String>) -> Seq<char> {
    edge_text(e.source, e.target, e.latencies, pen)
}

/// The line of an edge between two vertices with its latencies.
pub open spec fn edge_text(source: usize, target: usize, ls: Seq<i64>, pen: Option<String>) -> Seq<char> {
    "  n"@ + decimal(source as nat) + " -> n"@ + decimal(target as nat) + " [tooltip="@
        + quoted(latency_tooltip(ls)) + pen_part(pen) + "];\n"@
}

/// The lines of the first `n` edges.
pub open spec fn edge_lines(es: Seq<DotEdgeView>, pens: Seq<Option<String>>, n: nat) -> Seq<char>
    decreases n,
{
    if n == 0 {
        Seq::empty()
    } else {
        edge_lines(es, pens, (n - 1) as nat) + edge_line(es[n - 1], pens[n - 1])
    }
}

/// The lines of the first `n` members of a cluster.
pub open spec fn member_lines(ms: Seq<usize>, n: nat) -> Seq<char>
    decreases n,
{
    if n == 0 {
        Seq::empty()
    } else {
        member_lines(ms, (n - 1) as nat) + "    n"@ + decimal(ms[n - 1] as nat) + ";\n"@
    }
}

/// The block of cluster `c`, named `name`.
pub open spec fn cluster_block(c: nat, name: Seq<char>, ms: Seq<usize>) -> Seq<char> {
    "  subgraph cluster_"@ + decimal(c) + " {\n    label="@ + quoted(name) + ";\n"@ + member_lines(
        ms,
        ms.len(),
    ) + "  }\n"@
}

/// The blocks of the first `n` clusters, each named by its ROS node.
pub open spec fn cluster_blocks(model: RosModel, cs: Seq<Seq<usize>>, ros: Seq<u64>, n: nat) -> Seq<char>
    decreases n,
{
    if n == 0 {
        Seq::empty()
    } else {
        cluster_blocks(model, cs, ros, (n - 1) as nat) + cluster_block(
            (n - 1) as nat,
            model.node_name_shown(Some(ros[n - 1])),
            cs[n - 1],
        )
    }
}

/// The clusters of a drawing, by ROS node number.
pub open spec fn drawing_clusters(d: DotGraph) -> Seq<Seq<usize>> {
    clusters_of(
        d.spec_graph_node_to_ros_node(),
        d.spec_ros_node_to_id(),
        d.spec_node_ids(),
        d.spec_ros_node_to_id().len(),
    )
}

/// The number of clusters written: one per ROS node that has a cluster.
pub open spec fn cluster_count(d: DotGraph) -> nat {
    if d.spec_ros_node_to_id().len() < d.spec_ros_nodes().len() {
        d.spec_ros_node_to_id().len()
    } else {
        d.spec_ros_nodes().len()
    }
}

/// The DOT text of a drawing, given the pen width written for each edge.
pub open spec fn spec_dot_text(d: DotGraph, model: RosModel, pens: Seq<Option<String>>) -> Seq<char> {
    "digraph {\n  rankdir=\"LR\";\n"@ + vertex_lines(
        model,
        d.spec_graph_node_to_ros_node(),
        d.spec_node_ids(),
        d.spec_node_ids().len(),
    ) + edge_lines(d.spec_edges(), pens, d.spec_edges().len()) + cluster_blocks(
        model,
        drawing_clusters(d),
        d.spec_ros_nodes(),
        cluster_count(d),
    ) + "}\n"@
}

/// The model describes every vertex of the drawing and knows the period of
/// every timer among them.
pub open spec fn labels_known(d: DotGraph, model: RosModel) -> bool {
    forall|i: int|
        0 <= i < d.spec_node_ids().len() ==> {
            let n = (#[trigger] d.spec_node_ids()[i]).0;
            model.describes(n) && model.period_known(n)
        }
}

/// Appends `s` quoted.
fn push_quoted(out: &mut String, s: &str)
    ensures
        final(out)@ == old(out)@ + quoted(s@),
{
    let ghost o = out@;
    out.append("\"");
    let n = s.unicode_len();
    let mut i: usize = 0;
    proof {
        assert(s@.take(0) =~= Seq::<char>::empty());
        assert(out@ =~= o + "\""@ + escaped(s@.take(0)));
    }
    while i < n
        invariant
            n == s@.len(),
            i <= n,
            out@ == o + "\""@ + escaped(s@.take(i as int)),
        decreases n - i,
    {
        let c = s.get_char(i);
        let ghost before = out@;
        if c == '\\' {
            out.append("\\\\");
        } else if c == '"' {
            out.append("\\\"");
        } else if c == '\n' {
            out.append("\\n");
        } else {
            let one = s.substring_char(i, i + 1);
            assert(one@ =~= seq![c]);
            out.append(one);
        }
        proof {
            assert(s@.take(i + 1).drop_last() =~= s@.take(i as int));
            assert(s@.take(i + 1).last() == c);
            assert(out@ =~= before + escape_char(c));
            assert(out@ =~= o + "\""@ + escaped(s@.take(i + 1)));
        }
        i = i + 1;
    }
    proof {
        assert(s@.take(n as int) =~= s@);
    }
    let ghost mid = out@;
    out.append("\"");
    assert(out@ =~= o + quoted(s@));
}

/// Appends the line of a vertex.
fn push_vertex_line(out: &mut String, model: &RosModel, g2r: &AssocMap<Node, u64>, v: (Node, usize))
    requires
        model.wf(),
        g2r.wf(),
        model.describes(v.0),
        model.period_known(v.0),
    ensures
        final(out)@ == old(out)@ + vertex_line(*model, g2r.entries(), v),
{
    let ghost o = out@;
    let ros_name = match g2r.get(&v.0) {
        Some(r) => model.name_shown(Some(*r)),
        None => model.unknown.clone(),
    };
    let (name, tooltip) = get_node_name_and_tooltip(model, v.0, &ros_name);
    out.append("  n");
    push_decimal(out, v.1 as u64);
    out.append(" [label=");
    push_quoted(out, name.as_str());
    out.append(", shape=\"ellipse\", tooltip=");
    push_quoted(out, tooltip.as_str());
    out.append("];\n");
    assert(out@ =~= o + vertex_line(*model, g2r.entries(), v));
}

/// Appends the line of an edge.
fn push_edge_line(out: &mut String, source: usize, target: usize, ls: &Vec<i64>, pen: &Option<String>)
    requires
        ls@.len() > 0,
    ensures
        final(out)@ == old(out)@ + edge_text(source, target, ls@, *pen),
{
    let ghost o = out@;
    let mut tip = "Latency:\nmin: ".to_owned();
    push_signed_decimal(&mut tip, ls[0]);
    tip.append(" ns\nmedian: ");
    push_signed_decimal(&mut tip, ls[ls.len() / 2]);
    tip.append(" ns\nmax: ");
    push_signed_decimal(&mut tip, ls[ls.len() - 1]);
    tip.append(" ns");
    assert(tip@ =~= latency_tooltip(ls@));
    out.append("  n");
    push_decimal(out, source as u64);
    out.append(" -> n");
    push_decimal(out, target as u64);
    out.append(" [tooltip=");
    push_quoted(out, tip.as_str());
    let ghost mid = out@;
    match pen {
        Some(w) => {
            out.append(", penwidth=");
            push_quoted(out, w.as_str());
        },
        None => {},
    }
    assert(out@ =~= mid + pen_part(*pen));
    out.append("];\n");
    assert(out@ =~= o + edge_text(source, target, ls@, *pen));
}

/// Appends the block of a cluster.
fn push_cluster_block(out: &mut String, c: usize, name: &String, ms: &Vec<usize>)
    ensures
        final(out)@ == old(out)@ + cluster_block(c as nat, name@, ms@),
{
    let ghost o = out@;
    out.append("  subgraph cluster_");
    push_decimal(out, c as u64);
    out.append(" {\n    label=");
    push_quoted(out, name.as_str());
    out.append(";\n");
    let ghost head = out@;
    let mut j: usize = 0;
    while j < ms.len()
        invariant
            j <= ms@.len(),
            out@ == head + member_lines(ms@, j as nat),
        decreases ms@.len() - j,
    {
        let ghost before = out@;
        out.append("    n");
        push_decimal(out, ms[j] as u64);
        out.append(";\n");
        assert(out@ =~= head + member_lines(ms@, (j + 1) as nat));
        j = j + 1;
    }
    out.append("  }\n");
    assert(out@ =~= o + cluster_block(c as nat, name@, ms@));
}

/// Whether `labels_known` holds: every vertex of the drawing can be
/// labelled from the model.
pub fn can_label(d: &DotGraph, model: &RosModel) -> (r: bool)
    requires
        d.wf(),
        model.wf(),
    ensures
        r == labels_known(*d, *model),
{
    let ids = d.node_ids();
    let mut i: usize = 0;
    while i < ids.len()
        invariant
            ids.wf(),
            model.wf(),
            ids.entries() == d.spec_node_ids(),
            i <= ids.entries().len(),
            forall|k: int|
                0 <= k < i ==> {
                    let n = (#[trigger] d.spec_node_ids()[k]).0;
                    model.describes(n) && model.period_known(n)
                },
        decreases ids.entries().len() - i,
    {
        let n = ids.key_at(i);
        if !model.has_entity(n) {
            return false;
        }
        let known = match n {
            Node::Timer(k) => model.timers.get(&k).unwrap().period.is_some(),
            _ => true,
        };
        if !known {
            return false;
        }
        i = i + 1;
    }
    true
}

/// The DOT text of a drawing: the header; a line per vertex, in identifier
/// order, with its label and tooltip; a line per edge with its least, median
/// and greatest latency and the pen width given for it; a block per ROS
/// node listing the vertices of its cluster; and the closing brace. No edge
/// gets a colour attribute: no colour gradient is part of this library.
pub fn dot_text(d: &DotGraph, model: &RosModel, penwidths: &Vec<Option<String>>) -> (s: String)
    requires
        d.wf(),
        model.wf(),
        labels_known(*d, *model),
        penwidths@.len() == d.spec_edges().len(),
    ensures
        s@ == spec_dot_text(*d, *model, penwidths@),
{
    let mut out = "digraph {\n  rankdir=\"LR\";\n".to_owned();
    let ghost header = out@;

    let ids = d.node_ids();
    let g2r = d.graph_node_to_ros_node();
    let ghost vs = d.spec_node_ids();
    let mut i: usize = 0;
    while i < ids.len()
        invariant
            ids.wf(),
            g2r.wf(),
            model.wf(),
            ids.entries() == vs,
            vs == d.spec_node_ids(),
            g2r.entries() == d.spec_graph_node_to_ros_node(),
            labels_known(*d, *model),
            i <= vs.len(),
            out@ == header + vertex_lines(*model, g2r.entries(), vs, i as nat),
        decreases vs.len() - i,
    {
        let v = (ids.key_at(i), *ids.value_at(i));
        assert(v == vs[i as int]);
        let ghost before = out@;
        push_vertex_line(&mut out, model, g2r, v);
        assert(out@ =~= header + vertex_lines(*model, g2r.entries(), vs, (i + 1) as nat));
        i = i + 1;
    }
    let ghost after_vertices = out@;

    let edges = d.edges();
    let ghost es = d.spec_edges();
    proof {
        d.lemma_edges_sampled();
    }
    let mut j: usize = 0;
    while j < edges.len()
        invariant
            edges@.map_values(|x: crate::dot_graph::DisplayAsDotEdge| x@) == es,
            es == d.spec_edges(),
            penwidths@.len() == es.len(),
            forall|k: int| 0 <= k < es.len() ==> (#[trigger] es[k]).latencies.len() > 0,
            j <= es.len(),
            out@ == after_vertices + edge_lines(es, penwidths@, j as nat),
        decreases es.len() - j,
    {
        let e = &edges[j];
        assert(e@ == es[j as int]);
        let ls = e.latencies.values();
        let ghost before = out@;
        push_edge_line(&mut out, e.source, e.target, ls, &penwidths[j]);
        assert(out@ =~= after_vertices + edge_lines(es, penwidths@, (j + 1) as nat));
        j = j + 1;
    }
    let ghost after_edges = out@;

    let clusters = d.clusters();
    let ros = d.ros_nodes();
    let count = if clusters.len() < ros.len() {
        clusters.len()
    } else {
        ros.len()
    };
    let ghost cs = drawing_clusters(*d);
    let mut c: usize = 0;
    while c < count
        invariant
            model.wf(),
            clusters@.len() == d.spec_ros_node_to_id().len(),
            forall|k: int| 0 <= k < clusters@.len() ==> (#[trigger] clusters@[k])@ == cs[k],
            ros@ == d.spec_ros_nodes(),
            count == cluster_count(*d),
            c <= count,
            out@ == after_edges + cluster_blocks(*model, cs, ros@, c as nat),
        decreases count - c,
    {
        let name = model.name_shown(Some(ros[c]));
        assert(clusters@[c as int]@ == cs[c as int]);
        push_cluster_block(&mut out, c, &name, &clusters[c]);
        assert(out@ =~= after_edges + cluster_blocks(*model, cs, ros@, (c + 1) as nat));
        c = c + 1;
    }
    out.append("}\n");
    assert(out@ =~= spec_dot_text(*d, *model, penwidths@));
    out
}

} // verus!
