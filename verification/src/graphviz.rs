//! The directed graph and its text rendering, supplied by petgraph and
//! trusted through the contracts below.

use vstd::prelude::*;

verus! {

#[verifier::external_type_specification]
#[verifier::external_body]
#[verifier::reject_recursive_types(N)]
#[verifier::reject_recursive_types(E)]
#[verifier::reject_recursive_types(Ty)]
#[verifier::reject_recursive_types(Ix)]
pub struct ExGraph<N, E, Ty, Ix>(petgraph::graph::Graph<N, E, Ty, Ix>);

#[verifier::external_type_specification]
#[verifier::external_body]
pub struct ExDirected(petgraph::Directed);

/// The node weights of the graph, in node-index order.
pub uninterp spec fn graph_nodes(g: petgraph::graph::DiGraph<String, ()>) -> Seq<Seq<char>>;

/// The edges of the graph as (source index, target index) pairs, in
/// insertion order.
pub uninterp spec fn graph_edges(g: petgraph::graph::DiGraph<String, ()>) -> Seq<(int, int)>;

/// What petgraph's Dot writer prints for a graph with the given node
/// weights and edges.
pub uninterp spec fn dot_of(nodes: Seq<Seq<char>>, edges: Seq<(int, int)>) -> Seq<char>;

/// Relies on petgraph's Graph::new: the created graph has no nodes and no
/// edges.
#[verifier::external_body]
pub(crate) fn new_graph() -> (g: petgraph::graph::DiGraph<String, ()>)
    ensures
        graph_nodes(g) == Seq::<Seq<char>>::empty(),
        graph_edges(g) == Seq::<(int, int)>::empty(),
{
    petgraph::graph::DiGraph::new()
}

/// Relies on petgraph's Graph::add_node: appends one node and returns its
/// index, which equals the prior node count. The bound keeps the call away
/// from the index type's capacity, where petgraph panics.
#[verifier::external_body]
pub(crate) fn graph_add_node(g: &mut petgraph::graph::DiGraph<String, ()>, name: String) -> (ix: usize)
    requires
        graph_nodes(*old(g)).len() < 0xFFFF_FFFF,
    ensures
        graph_nodes(*final(g)) == graph_nodes(*old(g)).push(name@),
        graph_edges(*final(g)) == graph_edges(*old(g)),
        ix == graph_nodes(*old(g)).len(),
{
    g.add_node(name).index()
}

/// Relies on petgraph's Graph::add_edge: appends one directed edge from
/// node `a` to node `b`. The bounds keep the call away from the panics on
/// missing nodes and on the index type's capacity.
#[verifier::external_body]
pub(crate) fn graph_add_edge(g: &mut petgraph::graph::DiGraph<String, ()>, a: usize, b: usize)
    requires
        a < graph_nodes(*old(g)).len(),
        b < graph_nodes(*old(g)).len(),
        graph_edges(*old(g)).len() < 0xFFFF_FFFF,
    ensures
        graph_nodes(*final(g)) == graph_nodes(*old(g)),
        graph_edges(*final(g)) == graph_edges(*old(g)).push((a as int, b as int)),
{
    g.add_edge(
        petgraph::graph::NodeIndex::new(a),
        petgraph::graph::NodeIndex::new(b),
        (),
    );
}

/// Relies on petgraph's Dot writer over Debug formatting with edge labels
/// switched off: the printed text is a function of the node weights and the
/// edge endpoint pairs alone, both walked in index order.
#[verifier::external_body]
pub(crate) fn render_dot(g: &petgraph::graph::DiGraph<String, ()>) -> (r: String)
    ensures
        r@ == dot_of(graph_nodes(*g), graph_edges(*g)),
{
    format!("{:?}", petgraph::dot::Dot::with_config(g, &[petgraph::dot::Config::EdgeNoLabel]))
}

} // verus!
