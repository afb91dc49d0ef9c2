//! The topological sort of `petgraph`, as the builder relies on it.
//!
//! What is stated here of `petgraph` is taken from its source and is not
//! proved. The graph is a `GraphMap` whose vertices are numbers; it is
//! filled link by link and sorted once.

use petgraph::algo::Cycle;
use petgraph::graphmap::GraphMap;
use petgraph::Directed;
use vstd::prelude::*;

use crate::seqs::pushed_new;

verus! {

/// The pair of neighbours at `k` in a walk.
pub open spec fn step<T>(w: Seq<T>, k: int) -> (T, T) {
    (w[k], w[k + 1])
}

/// Whether `w` is a walk along the links: at least two stops, each linked
/// to the next.
pub open spec fn is_walk<T>(links: Seq<(T, T)>, w: Seq<T>) -> bool {
    &&& w.len() >= 2
    &&& forall|k: int| 0 <= k < w.len() - 1 ==> links.contains(#[trigger] step(w, k))
}

/// Whether the links run in a circle: some walk ends where it began. A link
/// from an identifier to itself is a circle.
pub open spec fn has_cycle<T>(links: Seq<(T, T)>) -> bool {
    exists|w: Seq<T>| is_walk(links, w) && w.first() == w.last()
}

/// Whether `order` is a topological order of the graph: it holds each
/// vertex exactly once, and the source of every link before its target.
pub open spec fn is_topological<T>(order: Seq<T>, vertices: Seq<T>, links: Seq<(T, T)>) -> bool {
    &&& order.no_duplicates()
    &&& forall|x: T| order.contains(x) <==> vertices.contains(x)
    &&& forall|i: int, j: int|
        #![trigger order[i], order[j]]
        0 <= i < order.len() && 0 <= j < order.len() && links.contains((order[i], order[j])) ==> i
            < j
}

/// `petgraph::graphmap::GraphMap`, taken as it is: of a graph nothing is
/// known but what the functions below say of it.
#[verifier::external_type_specification]
#[verifier::external_body]
#[verifier::reject_recursive_types(N)]
#[verifier::reject_recursive_types(E)]
#[verifier::reject_recursive_types(Ty)]
pub struct ExGraphMap<N, E, Ty>(GraphMap<N, E, Ty>);

/// `petgraph::Directed`, the mark of a graph whose links have a direction.
#[verifier::external_type_specification]
#[verifier::external_body]
pub struct ExDirected(Directed);

/// `petgraph::algo::Cycle`, the error of a failed topological sort.
#[verifier::external_type_specification]
#[verifier::external_body]
#[verifier::reject_recursive_types(N)]
pub struct ExCycle<N>(Cycle<N>);

/// The vertices of a graph in the order in which they entered it.
pub uninterp spec fn graph_nodes(g: GraphMap<usize, i32, Directed>) -> Seq<usize>;

/// The links of a graph in the order in which they entered it.
pub uninterp spec fn graph_edges(g: GraphMap<usize, i32, Directed>) -> Seq<(usize, usize)>;

/// The topological order that `petgraph` computes for the graph with the
/// given vertices and links, each in the order of entering.
pub uninterp spec fn topological_order(nodes: Seq<usize>, edges: Seq<(usize, usize)>) -> Seq<usize>;

/// `GraphMap::new` of `petgraph`: a graph without vertices or links.
#[verifier::external_body]
pub(crate) fn graph_new() -> (g: GraphMap<usize, i32, Directed>)
    ensures
        graph_nodes(g) == Seq::<usize>::empty(),
        graph_edges(g) == Seq::<(usize, usize)>::empty(),
{
    GraphMap::new()
}

/// `GraphMap::add_edge` of `petgraph`. A link that the graph holds already
/// leaves vertices and links as they are and hands back its old weight. A
/// new link is put last, after `a` and then `b` were put last among the
/// vertices, each unless it is one already; nothing is handed back.
#[verifier::external_body]
pub(crate) fn graph_add_edge(g: &mut GraphMap<usize, i32, Directed>, a: usize, b: usize, weight: i32) -> (r:
    Option<i32>)
    ensures
        r is Some <==> graph_edges(*old(g)).contains((a, b)),
        graph_edges(*final(g)) == pushed_new(graph_edges(*old(g)), (a, b)),
        graph_nodes(*final(g)) == if graph_edges(*old(g)).contains((a, b)) {
            graph_nodes(*old(g))
        } else {
            pushed_new(pushed_new(graph_nodes(*old(g)), a), b)
        },
{
    g.add_edge(a, b, weight)
}

/// `GraphMap::add_node` of `petgraph`: puts `n` last among the vertices
/// unless it is one already, leaves the links alone and hands `n` back.
#[verifier::external_body]
pub(crate) fn graph_add_node(g: &mut GraphMap<usize, i32, Directed>, n: usize) -> (r: usize)
    ensures
        r == n,
        graph_edges(*final(g)) == graph_edges(*old(g)),
        graph_nodes(*final(g)) == pushed_new(graph_nodes(*old(g)), n),
{
    g.add_node(n)
}

/// `petgraph::algo::toposort`, without a workspace of the caller's. It
/// fails exactly on a graph whose links run in a circle (a link from a
/// vertex to itself is one). Otherwise it hands back every vertex once,
/// each before the vertices it links to; which of the orders that meet this
/// it is depends on nothing but the vertices and links and the order in
/// which they entered.
#[verifier::external_body]
pub(crate) fn graph_toposort(g: &GraphMap<usize, i32, Directed>) -> (r: Result<Vec<usize>, Cycle<usize>>)
    ensures
        r is Ok <==> !has_cycle(graph_edges(*g)),
        r matches Ok(v) ==> v@ == topological_order(graph_nodes(*g), graph_edges(*g)),
        r matches Ok(v) ==> is_topological(v@, graph_nodes(*g), graph_edges(*g)),
{
    petgraph::algo::toposort(g, None)
}

} // verus!
