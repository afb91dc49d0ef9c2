//! Ordering the nodes of a graph by their dependencies.
//!
//! A node depends on the names it consumes, and the names it produces
//! depend on it. These links form a directed graph over identifiers. The
//! nodes are arranged along a topological order of that graph, so that no
//! node comes before the node that produces what it consumes. A graph whose
//! links run in a circle has no such order and is refused.
//!
//! The order itself is computed by `petgraph`, on a graph whose vertices are
//! the indices of the identifiers in a table of first occurrences.

use petgraph::graphmap::GraphMap;
use petgraph::Directed;
use vstd::prelude::*;

use crate::builder::dedup::names;
use crate::builder::toposort::{
    graph_add_edge, graph_add_node, graph_edges, graph_new, graph_nodes, graph_toposort,
    has_cycle, is_topological, is_walk, step, topological_order,
};
use crate::proto::{views, NodeProto, NodeView};
use crate::seqs::{
    first_occurrences, iota, lemma_first_occurrences, lemma_first_occurrences_push,
    lemma_index_of_unique, lemma_iota, pushed_new,
};
use crate::text::texts;

verus! {

/// Why a graph could not be built.
#[derive(Clone, Copy, Debug, PartialEq, Eq, Structural)]
pub enum BuildError {
    /// The links between the nodes run in a circle.
    Cycle,
}

/// The links of one node: from each name it consumes to the node, then
/// from the node to each name it produces.
pub open spec fn node_links(n: NodeView) -> Seq<(Seq<char>, Seq<char>)> {
    Seq::new(n.input.len(), |k: int| (n.input[k], n.name)) + Seq::new(
        n.output.len(),
        |k: int| (n.name, n.output[k]),
    )
}

/// The links of a list of nodes, node after node.
pub open spec fn links(nodes: Seq<NodeView>) -> Seq<(Seq<char>, Seq<char>)>
    decreases nodes.len(),
{
    if nodes.len() == 0 {
        Seq::empty()
    } else {
        links(nodes.drop_last()) + node_links(nodes.last())
    }
}

/// The two ends of each link, link after link.
pub open spec fn link_ends(ls: Seq<(Seq<char>, Seq<char>)>) -> Seq<Seq<char>>
    decreases ls.len(),
{
    if ls.len() == 0 {
        Seq::empty()
    } else {
        link_ends(ls.drop_last()).push(ls.last().0).push(ls.last().1)
    }
}

/// Every identifier that a list of nodes mentions, in the order of
/// mention: for each node the ends of its links, then its name.
pub open spec fn mentions(nodes: Seq<NodeView>) -> Seq<Seq<char>>
    decreases nodes.len(),
{
    if nodes.len() == 0 {
        Seq::empty()
    } else {
        mentions(nodes.drop_last()) + link_ends(node_links(nodes.last())).push(nodes.last().name)
    }
}

/// The table of identifiers of a list of nodes: each identifier once, in
/// the order of first mention. The index of an identifier in the table is
/// the vertex that stands for it.
pub open spec fn identifiers(nodes: Seq<NodeView>) -> Seq<Seq<char>> {
    first_occurrences(mentions(nodes))
}

/// The links of a list of nodes between vertices.
pub open spec fn vertex_links(nodes: Seq<NodeView>) -> Seq<(usize, usize)> {
    let table = identifiers(nodes);
    let named = links(nodes);
    Seq::new(
        named.len(),
        |k: int| (table.index_of(named[k].0) as usize, table.index_of(named[k].1) as usize),
    )
}

/// The identifiers in the order of the vertices that stand for them.
pub open spec fn named_order(table: Seq<Seq<char>>, order: Seq<usize>) -> Seq<Seq<char>> {
    Seq::new(order.len(), |k: int| table[order[k] as int])
}

/// The order of the identifiers of a list of nodes along which the nodes
/// are arranged.
pub open spec fn dependency_order(nodes: Seq<NodeView>) -> Seq<Seq<char>> {
    let table = identifiers(nodes);
    named_order(
        table,
        topological_order(iota(table.len()), first_occurrences(vertex_links(nodes))),
    )
}

/// The nodes of the given name, in their order.
pub open spec fn picked(nodes: Seq<NodeView>, name: Seq<char>) -> Seq<NodeView>
    decreases nodes.len(),
{
    if nodes.len() == 0 {
        Seq::empty()
    } else {
        let head = picked(nodes.drop_last(), name);
        if nodes.last().name == name {
            head.push(nodes.last())
        } else {
            head
        }
    }
}

/// The nodes arranged along an order of names: for each name of the order
/// in turn, the nodes of that name (a name that the order repeats counts
/// where it stands first). A node whose name the order does not hold is
/// left out.
pub open spec fn arranged(nodes: Seq<NodeView>, order: Seq<Seq<char>>) -> Seq<NodeView>
    decreases order.len(),
{
    if order.len() == 0 {
        Seq::empty()
    } else {
        let head = arranged(nodes, order.drop_last());
        if order.drop_last().contains(order.last()) {
            head
        } else {
            head + picked(nodes, order.last())
        }
    }
}

/// Whether a node provides an identifier: by its name or as one of the
/// names it produces.
pub open spec fn provides(n: NodeView, x: Seq<char>) -> bool {
    n.name == x || n.output.contains(x)
}

/// Whether every node stands after the nodes that provide what it consumes.
pub open spec fn ordered(nodes: Seq<NodeView>) -> bool {
    forall|i: int, j: int, x: Seq<char>|
        #![trigger provides(nodes[i], x), nodes[j].input.contains(x)]
        0 <= i < nodes.len() && 0 <= j < nodes.len() && provides(nodes[i], x)
            && nodes[j].input.contains(x) ==> i < j
}

/// Arranges the nodes along an order of names.
pub fn arrange(nodes: Vec<NodeProto>, order: &Vec<String>) -> (r: Vec<NodeProto>)
    ensures
        views(r@) == arranged(views(nodes@), texts(order@)),
{
    let ghost all = views(nodes@);
    let ghost names = texts(order@);
    let mut slots: Vec<Option<NodeProto>> = Vec::new();
    for node in it: nodes
        invariant
            it.seq() == nodes@,
            slots.len() == it.index(),
            forall|j: int| 0 <= j < it.index() ==> #[trigger] slots@[j] == Some(nodes@[j]),
    {
        slots.push(Some(node));
    }
    let mut out: Vec<NodeProto> = Vec::new();
    proof {
        assert(names.take(0) =~= Seq::empty());
        assert(views(out@) =~= arranged(all, names.take(0)));
    }
    let mut k: usize = 0;
    while k < order.len()
        invariant
            k <= order.len(),
            all == views(nodes@),
            names == texts(order@),
            slots.len() == nodes@.len(),
            views(out@) == arranged(all, names.take(k as int)),
            forall|j: int|
                0 <= j < slots.len() ==> ((#[trigger] slots@[j]) is None <==> names.take(
                    k as int,
                ).contains(all[j].name)),
            forall|j: int|
                0 <= j < slots.len() && (#[trigger] slots@[j]) is Some ==> slots@[j] == Some(
                    nodes@[j],
                ),
        decreases order.len() - k,
    {
        let ghost before = views(out@);
        let ghost past = names.take(k as int);
        let ghost name = names[k as int];
        let ghost fresh = !past.contains(name);
        proof {
            assert(all.take(0) =~= Seq::empty());
            assert(views(out@) =~= before + Seq::<NodeView>::empty());
        }
        let mut j: usize = 0;
        while j < slots.len()
            invariant
                j <= slots.len(),
                k < order.len(),
                all == views(nodes@),
                names == texts(order@),
                past == names.take(k as int),
                name == names[k as int],
                fresh == !past.contains(name),
                slots.len() == nodes@.len(),
                views(out@) == before + if fresh {
                    picked(all.take(j as int), name)
                } else {
                    Seq::empty()
                },
                forall|i: int|
                    0 <= i < j ==> ((#[trigger] slots@[i]) is None <==> (past.contains(all[i].name)
                        || all[i].name == name)),
                forall|i: int|
                    j <= i < slots.len() ==> ((#[trigger] slots@[i]) is None <==> past.contains(
                        all[i].name,
                    )),
                forall|i: int|
                    0 <= i < slots.len() && (#[trigger] slots@[i]) is Some ==> slots@[i] == Some(
                        nodes@[i],
                    ),
            decreases slots.len() - j,
        {
            let hit = match &slots[j] {
                Some(node) => node.name == order[k],
                None => false,
            };
            proof {
                assert(all.take(j + 1).drop_last() =~= all.take(j as int));
                assert(all.take(j + 1).last() == all[j as int]);
                assert(all[j as int] == nodes@[j as int]@);
            }
            if hit {
                let ghost placed = views(out@);
                proof {
                    assert(slots@[j as int] == Some(nodes@[j as int]));
                    assert(names[k as int] == order@[k as int]@);
                    assert(all[j as int].name == name);
                    assert(!past.contains(all[j as int].name));
                }
                let taken = slots[j].take();
                match taken {
                    Some(node) => {
                        out.push(node);
                        proof {
                            assert(node == nodes@[j as int]);
                            assert(views(out@) =~= placed.push(all[j as int]));
                            assert(picked(all.take(j + 1), name) == picked(
                                all.take(j as int),
                                name,
                            ).push(all[j as int]));
                            assert(views(out@) =~= before + picked(all.take(j + 1), name));
                        }
                    },
                    None => {},
                }
            }
            j = j + 1;
        }
        proof {
            assert(all.take(slots.len() as int) =~= all);
            assert(names.take(k + 1).drop_last() =~= past);
            assert(names.take(k + 1).last() == name);
            assert(views(out@) =~= arranged(all, names.take(k + 1)));
            assert forall|i: int| 0 <= i < slots.len() implies ((#[trigger] slots@[i]) is None
                <==> names.take(k + 1).contains(all[i].name)) by {
                let x = all[i].name;
                let now = names.take(k + 1);
                if now.contains(x) {
                    let at = choose|at: int| 0 <= at < now.len() && now[at] == x;
                    if at < k {
                        assert(past[at] == x);
                    }
                }
                if past.contains(x) {
                    let at = choose|at: int| 0 <= at < past.len() && past[at] == x;
                    assert(now[at] == x);
                }
                if x == name {
                    assert(now[k as int] == x);
                }
            }
        }
        k = k + 1;
    }
    proof {
        assert(names.take(order.len() as int) =~= names);
    }
    out
}

/// Finds the identifier in the table, or puts it last, and tells its index.
fn intern(table: &mut Vec<String>, id: &String) -> (at: usize)
    requires
        texts(old(table)@).no_duplicates(),
    ensures
        texts(final(table)@) == pushed_new(texts(old(table)@), id@),
        texts(final(table)@).no_duplicates(),
        at < final(table).len(),
        final(table)@[at as int]@ == id@,
        texts(old(table)@).contains(id@) <==> at < old(table).len(),
{
    let mut k: usize = 0;
    while k < table.len()
        invariant
            k <= table.len(),
            *table == *old(table),
            texts(table@).no_duplicates(),
            forall|j: int| 0 <= j < k ==> table@[j]@ != id@,
        decreases table.len() - k,
    {
        if table[k] == *id {
            proof {
                assert(texts(table@)[k as int] == id@);
            }
            return k;
        }
        k = k + 1;
    }
    proof {
        let before = texts(table@);
        if before.contains(id@) {
            let j = choose|j: int| 0 <= j < before.len() && before[j] == id@;
            assert(table@[j]@ == id@);
        }
    }
    table.push(id.clone());
    proof {
        let before = texts(old(table)@);
        let after = texts(table@);
        assert(after =~= before.push(id@));
        assert forall|i: int, j: int| 0 <= i < after.len() && 0 <= j < after.len() && i != j implies after[i]
            != after[j] by {
            if i < before.len() && j < before.len() {
                assert(before[i] != before[j]);
            } else if i < before.len() {
                assert(old(table)@[i]@ != id@);
            } else {
                assert(old(table)@[j]@ != id@);
            }
        }
    }
    table.len() - 1
}

/// Whether `wired` holds, link for link, the vertices that stand for the
/// ends of the links in `named`.
pub open spec fn wired_as(
    table: Seq<Seq<char>>,
    named: Seq<(Seq<char>, Seq<char>)>,
    wired: Seq<(usize, usize)>,
) -> bool {
    &&& wired.len() == named.len()
    &&& forall|k: int|
        0 <= k < named.len() ==> {
            &&& (#[trigger] wired[k]).0 < table.len()
            &&& wired[k].1 < table.len()
            &&& table[wired[k].0 as int] == named[k].0
            &&& table[wired[k].1 as int] == named[k].1
        }
}

/// Whether table and graph stand for the identifiers `seen` and the links
/// `named`, entered in this order.
spec fn wiring(
    table: Seq<String>,
    g: GraphMap<usize, i32, Directed>,
    seen: Seq<Seq<char>>,
    named: Seq<(Seq<char>, Seq<char>)>,
    wired: Seq<(usize, usize)>,
) -> bool {
    &&& texts(table) == first_occurrences(seen)
    &&& texts(table).no_duplicates()
    &&& graph_nodes(g) == iota(table.len())
    &&& graph_edges(g) == first_occurrences(wired)
    &&& wired_as(texts(table), named, wired)
}

/// Enters one link: its two ends into the table, the link into the graph.
fn wire_link(
    table: &mut Vec<String>,
    g: &mut GraphMap<usize, i32, Directed>,
    from: &String,
    to: &String,
    Ghost(seen): Ghost<Seq<Seq<char>>>,
    Ghost(named): Ghost<Seq<(Seq<char>, Seq<char>)>>,
    Ghost(wired): Ghost<Seq<(usize, usize)>>,
) -> (r: (usize, usize))
    requires
        wiring(old(table)@, *old(g), seen, named, wired),
    ensures
        wiring(
            final(table)@,
            *final(g),
            seen.push(from@).push(to@),
            named.push((from@, to@)),
            wired.push(r),
        ),
{
    let ghost t0 = texts(table@);
    let a = intern(table, from);
    let ghost t1 = texts(table@);
    let b = intern(table, to);
    let ghost t2 = texts(table@);
    let ghost e0 = graph_edges(*g);
    let _ = graph_add_edge(g, a, b, 1);
    proof {
        lemma_first_occurrences_push(seen, from@);
        lemma_first_occurrences_push(seen.push(from@), to@);
        lemma_first_occurrences_push(wired, (a, b));
        lemma_first_occurrences(wired);
        assert(t0.len() == old(table)@.len());
        assert(t1.len() == t0.len() || t1.len() == t0.len() + 1);
        assert(t2.len() == t1.len() || t2.len() == t1.len() + 1);
        assert(t2.len() == table@.len());
        assert(forall|k: int| 0 <= k < t0.len() ==> t1[k] == t0[k]);
        assert(forall|k: int| 0 <= k < t1.len() ==> t2[k] == t1[k]);
        if e0.contains((a, b)) {
            assert(wired.contains((a, b)));
            let k = choose|k: int| 0 <= k < wired.len() && wired[k] == (a, b);
            assert(wired[k].0 < t0.len());
            assert(wired[k].1 < t0.len());
            assert(t1 == t0);
            assert(t2 == t1);
        } else {
            lemma_iota(t0.len());
            lemma_iota(t1.len());
            if a < t0.len() {
                assert(t1 == t0);
            } else {
                assert(t1 == t0.push(from@));
                assert(a == t0.len());
            }
            assert(pushed_new(iota(t0.len()), a) == iota(t1.len()));
            if b < t1.len() {
                assert(t2 == t1);
            } else {
                assert(t2 == t1.push(to@));
                assert(b == t1.len());
            }
            assert(pushed_new(iota(t1.len()), b) == iota(t2.len()));
        }
        let named2 = named.push((from@, to@));
        let wired2 = wired.push((a, b));
        assert forall|k: int| 0 <= k < named2.len() implies {
            &&& (#[trigger] wired2[k]).0 < t2.len()
            &&& wired2[k].1 < t2.len()
            &&& t2[wired2[k].0 as int] == named2[k].0
            &&& t2[wired2[k].1 as int] == named2[k].1
        } by {
            if k < named.len() {
                assert(wired2[k] == wired[k]);
                assert(wired[k].0 < t0.len());
            }
        }
    }
    (a, b)
}

/// Enters the name of a node as a vertex.
fn wire_name(
    table: &mut Vec<String>,
    g: &mut GraphMap<usize, i32, Directed>,
    name: &String,
    Ghost(seen): Ghost<Seq<Seq<char>>>,
    Ghost(named): Ghost<Seq<(Seq<char>, Seq<char>)>>,
    Ghost(wired): Ghost<Seq<(usize, usize)>>,
)
    requires
        wiring(old(table)@, *old(g), seen, named, wired),
    ensures
        wiring(final(table)@, *final(g), seen.push(name@), named, wired),
{
    let ghost t0 = texts(table@);
    let at = intern(table, name);
    let ghost t1 = texts(table@);
    let _ = graph_add_node(g, at);
    proof {
        lemma_first_occurrences_push(seen, name@);
        assert(t0.len() == old(table)@.len());
        assert(t1.len() == table@.len());
        assert(forall|k: int| 0 <= k < t0.len() ==> t1[k] == t0[k]);
        lemma_iota(t0.len());
        if at < t0.len() {
            assert(t1 == t0);
        } else {
            assert(t1 == t0.push(name@));
            assert(at == t0.len());
        }
        assert(pushed_new(iota(t0.len()), at) == iota(t1.len()));
        assert forall|k: int| 0 <= k < named.len() implies {
            &&& (#[trigger] wired[k]).0 < t1.len()
            &&& wired[k].1 < t1.len()
            &&& t1[wired[k].0 as int] == named[k].0
            &&& t1[wired[k].1 as int] == named[k].1
        } by {
            assert(wired[k].0 < t0.len());
        }
    }
}

/// The ends of one more link.
proof fn lemma_link_ends_take(ls: Seq<(Seq<char>, Seq<char>)>, k: int)
    requires
        0 <= k < ls.len(),
    ensures
        link_ends(ls.take(k + 1)) == link_ends(ls.take(k)).push(ls[k].0).push(ls[k].1),
{
    assert(ls.take(k + 1).drop_last() =~= ls.take(k));
    assert(ls.take(k + 1).last() == ls[k]);
}

/// Builds the table of identifiers and the graph of their links.
fn wire(nodes: &Vec<NodeProto>) -> (r: (Vec<String>, GraphMap<usize, i32, Directed>))
    ensures
        texts(r.0@) == identifiers(views(nodes@)),
        graph_nodes(r.1) == iota(r.0@.len()),
        graph_edges(r.1) == first_occurrences(vertex_links(views(nodes@))),
        texts(r.0@).no_duplicates(),
        wired_as(texts(r.0@), links(views(nodes@)), vertex_links(views(nodes@))),
{
    let mut table: Vec<String> = Vec::new();
    let mut g = graph_new();
    let ghost all = views(nodes@);
    let ghost mut seen: Seq<Seq<char>> = Seq::empty();
    let ghost mut named: Seq<(Seq<char>, Seq<char>)> = Seq::empty();
    let ghost mut wired: Seq<(usize, usize)> = Seq::empty();
    proof {
        assert(texts(table@) =~= first_occurrences(seen));
        assert(graph_nodes(g) =~= iota(0));
    }
    let mut i: usize = 0;
    while i < nodes.len()
        invariant
            i <= nodes.len(),
            all == views(nodes@),
            wiring(table@, g, seen, named, wired),
            seen == mentions(all.take(i as int)),
            named == links(all.take(i as int)),
        decreases nodes.len() - i,
    {
        let node = &nodes[i];
        let ghost n = node@;
        let ghost ls = node_links(n);
        let ghost seen0 = seen;
        let ghost named0 = named;
        proof {
            assert(n == all[i as int]);
            assert(n.input =~= texts(node.input@));
            assert(n.output =~= texts(node.output@));
            assert(ls.take(0) =~= Seq::empty());
            assert(seen =~= seen0 + link_ends(ls.take(0)));
            assert(named =~= named0 + ls.take(0));
        }
        let mut k: usize = 0;
        while k < node.input.len()
            invariant
                k <= node.input.len(),
                n == node@,
                ls == node_links(n),
                n.input == texts(node.input@),
                n.output == texts(node.output@),
                wiring(table@, g, seen, named, wired),
                seen == seen0 + link_ends(ls.take(k as int)),
                named == named0 + ls.take(k as int),
            decreases node.input.len() - k,
        {
            let ends = wire_link(
                &mut table,
                &mut g,
                &node.input[k],
                &node.name,
                Ghost(seen),
                Ghost(named),
                Ghost(wired),
            );
            proof {
                lemma_link_ends_take(ls, k as int);
                assert(ls[k as int] == (node.input@[k as int]@, node.name@));
                assert(ls.take(k + 1) =~= ls.take(k as int).push(ls[k as int]));
                seen = seen.push(node.input@[k as int]@).push(node.name@);
                named = named.push((node.input@[k as int]@, node.name@));
                wired = wired.push(ends);
                assert(seen =~= seen0 + link_ends(ls.take(k + 1)));
                assert(named =~= named0 + ls.take(k + 1));
            }
            k = k + 1;
        }
        let ghost inputs: int = node.input@.len() as int;
        let mut k: usize = 0;
        while k < node.output.len()
            invariant
                k <= node.output.len(),
                n == node@,
                ls == node_links(n),
                inputs == node.input@.len(),
                n.input == texts(node.input@),
                n.output == texts(node.output@),
                wiring(table@, g, seen, named, wired),
                seen == seen0 + link_ends(ls.take(inputs + k)),
                named == named0 + ls.take(inputs + k),
            decreases node.output.len() - k,
        {
            let ends = wire_link(
                &mut table,
                &mut g,
                &node.name,
                &node.output[k],
                Ghost(seen),
                Ghost(named),
                Ghost(wired),
            );
            proof {
                lemma_link_ends_take(ls, inputs + k);
                assert(ls[inputs + k] == (node.name@, node.output@[k as int]@));
                assert(ls.take(inputs + k + 1) =~= ls.take(inputs + k).push(ls[inputs + k]));
                seen = seen.push(node.name@).push(node.output@[k as int]@);
                named = named.push((node.name@, node.output@[k as int]@));
                wired = wired.push(ends);
                assert(seen =~= seen0 + link_ends(ls.take(inputs + k + 1)));
                assert(named =~= named0 + ls.take(inputs + k + 1));
            }
            k = k + 1;
        }
        wire_name(&mut table, &mut g, &node.name, Ghost(seen), Ghost(named), Ghost(wired));
        proof {
            seen = seen.push(node.name@);
            assert(ls.take((inputs + node.output@.len()) as int) =~= ls);
            assert(all.take(i + 1).drop_last() =~= all.take(i as int));
            assert(all.take(i + 1).last() == n);
            assert(seen =~= seen0 + link_ends(ls).push(n.name));
        }
        i = i + 1;
    }
    proof {
        assert(all.take(nodes.len() as int) =~= all);
        lemma_first_occurrences(seen);
        let t = texts(table@);
        let want = vertex_links(all);
        assert(wired.len() == want.len());
        assert forall|k: int| 0 <= k < wired.len() implies wired[k] == want[k] by {
            lemma_index_of_unique(t, wired[k].0 as int);
            lemma_index_of_unique(t, wired[k].1 as int);
        }
        assert(wired =~= want);
    }
    (table, g)
}

/// Links between identifiers run in a circle exactly if the links between
/// the vertices that stand for them do.
proof fn lemma_cycle_transfer(
    table: Seq<Seq<char>>,
    named: Seq<(Seq<char>, Seq<char>)>,
    wired: Seq<(usize, usize)>,
)
    requires
        table.no_duplicates(),
        wired_as(table, named, wired),
    ensures
        has_cycle(named) <==> has_cycle(first_occurrences(wired)),
{
    let e = first_occurrences(wired);
    lemma_first_occurrences(wired);
    if has_cycle(named) {
        let w = choose|w: Seq<Seq<char>>| is_walk(named, w) && w.first() == w.last();
        let v = Seq::new(w.len(), |k: int| table.index_of(w[k]) as usize);
        assert forall|k: int| 0 <= k < v.len() - 1 implies e.contains(#[trigger] step(v, k)) by {
            assert(named.contains(step(w, k)));
            let m = choose|m: int| 0 <= m < named.len() && named[m] == step(w, k);
            lemma_index_of_unique(table, wired[m].0 as int);
            lemma_index_of_unique(table, wired[m].1 as int);
            assert(wired[m] == step(v, k));
            assert(wired.contains(step(v, k)));
        }
        assert(is_walk(e, v) && v.first() == v.last());
    }
    if has_cycle(e) {
        let v = choose|v: Seq<usize>| is_walk(e, v) && v.first() == v.last();
        let w = Seq::new(v.len(), |k: int| table[v[k] as int]);
        assert forall|k: int| 0 <= k < w.len() - 1 implies named.contains(#[trigger] step(w, k)) by {
            assert(e.contains(step(v, k)));
            assert(wired.contains(step(v, k)));
            let m = choose|m: int| 0 <= m < wired.len() && wired[m] == step(v, k);
            assert(named[m] == step(w, k));
        }
        assert(is_walk(named, w) && w.first() == w.last());
    }
}

/// A topological order of the vertices, read as identifiers, is a
/// topological order of the identifiers.
proof fn lemma_named_topological(
    table: Seq<Seq<char>>,
    named: Seq<(Seq<char>, Seq<char>)>,
    wired: Seq<(usize, usize)>,
    order: Seq<usize>,
)
    requires
        table.len() <= usize::MAX,
        table.no_duplicates(),
        wired_as(table, named, wired),
        is_topological(order, iota(table.len()), first_occurrences(wired)),
    ensures
        is_topological(named_order(table, order), table, named),
        forall|k: int| 0 <= k < order.len() ==> order[k] < table.len(),
{
    let e = first_occurrences(wired);
    let names = named_order(table, order);
    lemma_first_occurrences(wired);
    lemma_iota(table.len());
    assert forall|k: int| 0 <= k < order.len() implies order[k] < table.len() by {
        assert(order.contains(order[k]));
    }
    assert forall|i: int, j: int| 0 <= i < names.len() && 0 <= j < names.len() && i != j implies names[i]
        != names[j] by {
        assert(order[i] != order[j]);
    }
    assert forall|x: Seq<char>| names.contains(x) <==> table.contains(x) by {
        if names.contains(x) {
            let k = choose|k: int| 0 <= k < names.len() && names[k] == x;
            assert(table[order[k] as int] == x);
        }
        if table.contains(x) {
            let at = choose|at: int| 0 <= at < table.len() && table[at] == x;
            assert(iota(table.len()).contains(at as usize));
            assert(order.contains(at as usize));
            let k = choose|k: int| 0 <= k < order.len() && order[k] == at as usize;
            assert(names[k] == x);
        }
    }
    assert forall|i: int, j: int|
        #![trigger names[i], names[j]]
        0 <= i < names.len() && 0 <= j < names.len() && named.contains((names[i], names[j])) implies i
        < j by {
        let m = choose|m: int| 0 <= m < named.len() && named[m] == (names[i], names[j]);
        assert(table[wired[m].0 as int] == table[order[i] as int]);
        assert(table[wired[m].1 as int] == table[order[j] as int]);
        assert(wired[m] == (order[i], order[j]));
        assert(wired.contains((order[i], order[j])));
        assert(e.contains((order[i], order[j])));
    }
}

/// The links of a list of nodes hold the links of each of its nodes.
pub proof fn lemma_links_of_node(nodes: Seq<NodeView>, m: int)
    requires
        0 <= m < nodes.len(),
    ensures
        forall|x: Seq<char>|
            nodes[m].input.contains(x) ==> #[trigger] links(nodes).contains((x, nodes[m].name)),
        forall|x: Seq<char>|
            nodes[m].output.contains(x) ==> #[trigger] links(nodes).contains((nodes[m].name, x)),
        mentions(nodes).contains(nodes[m].name),
    decreases nodes.len(),
{
    let head = nodes.drop_last();
    let last = nodes.last();
    let own = node_links(last);
    let all = links(nodes);
    let said = mentions(nodes);
    if m == nodes.len() - 1 {
        assert forall|x: Seq<char>| last.input.contains(x) implies #[trigger] all.contains(
            (x, last.name),
        ) by {
            let k = choose|k: int| 0 <= k < last.input.len() && last.input[k] == x;
            assert(own[k] == (x, last.name));
            assert(all[links(head).len() + k] == (x, last.name));
        }
        assert forall|x: Seq<char>| last.output.contains(x) implies #[trigger] all.contains(
            (last.name, x),
        ) by {
            let k = choose|k: int| 0 <= k < last.output.len() && last.output[k] == x;
            assert(own[last.input.len() + k] == (last.name, x));
            assert(all[links(head).len() + last.input.len() + k] == (last.name, x));
        }
        assert(said[said.len() - 1] == last.name);
    } else {
        lemma_links_of_node(head, m);
        assert(head[m] == nodes[m]);
        assert forall|x: Seq<char>| nodes[m].input.contains(x) implies #[trigger] all.contains(
            (x, nodes[m].name),
        ) by {
            assert(links(head).contains((x, nodes[m].name)));
            let k = choose|k: int| 0 <= k < links(head).len() && links(head)[k] == (x, nodes[m].name);
            assert(all[k] == (x, nodes[m].name));
        }
        assert forall|x: Seq<char>| nodes[m].output.contains(x) implies #[trigger] all.contains(
            (nodes[m].name, x),
        ) by {
            assert(links(head).contains((nodes[m].name, x)));
            let k = choose|k: int| 0 <= k < links(head).len() && links(head)[k] == (nodes[m].name, x);
            assert(all[k] == (nodes[m].name, x));
        }
        let k = choose|k: int| 0 <= k < mentions(head).len() && mentions(head)[k] == nodes[m].name;
        assert(said[k] == nodes[m].name);
    }
}

/// The ends of a list of links hold both ends of each link.
proof fn lemma_link_ends(ls: Seq<(Seq<char>, Seq<char>)>)
    ensures
        forall|a: Seq<char>, b: Seq<char>|
            #[trigger] ls.contains((a, b)) ==> link_ends(ls).contains(a) && link_ends(ls).contains(b),
    decreases ls.len(),
{
    if ls.len() > 0 {
        let head = ls.drop_last();
        lemma_link_ends(head);
        let ends = link_ends(ls);
        assert(ends.len() == link_ends(head).len() + 2);
        assert forall|a: Seq<char>, b: Seq<char>| #[trigger] ls.contains((a, b)) implies ends.contains(a)
            && ends.contains(b) by {
            let k = choose|k: int| 0 <= k < ls.len() && ls[k] == (a, b);
            if k < ls.len() - 1 {
                assert(head[k] == (a, b));
                assert(head.contains((a, b)));
                let i = choose|i: int| 0 <= i < link_ends(head).len() && link_ends(head)[i] == a;
                assert(ends[i] == a);
                let j = choose|j: int| 0 <= j < link_ends(head).len() && link_ends(head)[j] == b;
                assert(ends[j] == b);
            } else {
                assert(ends[ends.len() - 2] == a);
                assert(ends[ends.len() - 1] == b);
            }
        }
    }
}

/// Both ends of every link of a list of nodes are among its identifiers.
pub proof fn lemma_ends_identified(nodes: Seq<NodeView>)
    ensures
        forall|a: Seq<char>, b: Seq<char>|
            #[trigger] links(nodes).contains((a, b)) ==> identifiers(nodes).contains(a)
                && identifiers(nodes).contains(b),
    decreases nodes.len(),
{
    lemma_first_occurrences(mentions(nodes));
    if nodes.len() > 0 {
        let head = nodes.drop_last();
        let last = nodes.last();
        let own = node_links(last);
        let said = mentions(nodes);
        let tail = link_ends(own).push(last.name);
        lemma_ends_identified(head);
        lemma_first_occurrences(mentions(head));
        lemma_link_ends(own);
        assert forall|a: Seq<char>, b: Seq<char>| #[trigger] links(nodes).contains((a, b)) implies said.contains(
            a,
        ) && said.contains(b) by {
            let k = choose|k: int| 0 <= k < links(nodes).len() && links(nodes)[k] == (a, b);
            if k < links(head).len() {
                assert(links(head)[k] == (a, b));
                assert(links(head).contains((a, b)));
                assert(identifiers(head).contains(a));
                assert(identifiers(head).contains(b));
                assert(mentions(head).contains(a));
                assert(mentions(head).contains(b));
                let i = choose|i: int| 0 <= i < mentions(head).len() && mentions(head)[i] == a;
                assert(said[i] == a);
                let j = choose|j: int| 0 <= j < mentions(head).len() && mentions(head)[j] == b;
                assert(said[j] == b);
            } else {
                assert(own[k - links(head).len()] == (a, b));
                assert(own.contains((a, b)));
                let i = choose|i: int| 0 <= i < link_ends(own).len() && link_ends(own)[i] == a;
                assert(tail[i] == a);
                assert(said[mentions(head).len() + i] == a);
                let j = choose|j: int| 0 <= j < link_ends(own).len() && link_ends(own)[j] == b;
                assert(tail[j] == b);
                assert(said[mentions(head).len() + j] == b);
            }
        }
        assert forall|a: Seq<char>, b: Seq<char>| #[trigger] links(nodes).contains((a, b)) implies identifiers(
            nodes,
        ).contains(a) && identifiers(nodes).contains(b) by {
            assert(said.contains(a) && said.contains(b));
        }
    }
}

/// The nodes picked by a name are the nodes of that name; among nodes of
/// distinct names there is at most one.
pub proof fn lemma_picked(nodes: Seq<NodeView>, name: Seq<char>)
    ensures
        forall|i: int|
            0 <= i < picked(nodes, name).len() ==> (#[trigger] picked(nodes, name)[i]).name == name
                && nodes.contains(picked(nodes, name)[i]),
        forall|m: int|
            0 <= m < nodes.len() && (#[trigger] nodes[m]).name == name ==> picked(
                nodes,
                name,
            ).contains(nodes[m]),
        names(nodes).no_duplicates() ==> picked(nodes, name).len() <= 1,
    decreases nodes.len(),
{
    if nodes.len() > 0 {
        let head = nodes.drop_last();
        let last = nodes.last();
        let got = picked(nodes, name);
        let before = picked(head, name);
        lemma_picked(head, name);
        assert forall|i: int| 0 <= i < got.len() implies (#[trigger] got[i]).name == name
            && nodes.contains(got[i]) by {
            if i < before.len() {
                assert(got[i] == before[i]);
                assert(head.contains(before[i]));
                let m = choose|m: int| 0 <= m < head.len() && head[m] == before[i];
                assert(nodes[m] == got[i]);
            } else {
                assert(nodes[nodes.len() - 1] == got[i]);
            }
        }
        assert forall|m: int| 0 <= m < nodes.len() && (#[trigger] nodes[m]).name == name implies got.contains(
            nodes[m],
        ) by {
            if m < nodes.len() - 1 {
                assert(head[m] == nodes[m]);
                assert(before.contains(head[m]));
                let i = choose|i: int| 0 <= i < before.len() && before[i] == head[m];
                assert(got[i] == nodes[m]);
            } else {
                assert(got[got.len() - 1] == nodes[m]);
            }
        }
        if names(nodes).no_duplicates() {
            assert forall|i: int, j: int| 0 <= i < head.len() && 0 <= j < head.len() && i != j implies names(
                head,
            )[i] != names(head)[j] by {
                assert(names(nodes)[i] != names(nodes)[j]);
            }
            if last.name == name && before.len() > 0 {
                assert(head.contains(before[0]));
                let m = choose|m: int| 0 <= m < head.len() && head[m] == before[0];
                assert(names(nodes)[m] == names(nodes)[nodes.len() - 1]);
            }
        }
    }
}

/// Arranging invents nothing: every arranged node is one of the nodes.
pub proof fn lemma_arranged_members(nodes: Seq<NodeView>, order: Seq<Seq<char>>)
    ensures
        forall|i: int|
            0 <= i < arranged(nodes, order).len() ==> nodes.contains(
                #[trigger] arranged(nodes, order)[i],
            ),
    decreases order.len(),
{
    if order.len() > 0 {
        let out = arranged(nodes, order);
        let head = arranged(nodes, order.drop_last());
        let block = picked(nodes, order.last());
        lemma_arranged_members(nodes, order.drop_last());
        lemma_picked(nodes, order.last());
        assert forall|i: int| 0 <= i < out.len() implies nodes.contains(#[trigger] out[i]) by {
            if i < head.len() {
                assert(out[i] == head[i]);
            } else {
                assert(out[i] == block[i - head.len()]);
            }
        }
    }
}

/// The nodes arranged along an order without repetition: each is one of
/// the nodes and bears a name of the order, they stand as their names do in
/// the order, no node whose name the order holds is missing, and names that
/// were distinct stay distinct.
pub proof fn lemma_arranged(nodes: Seq<NodeView>, order: Seq<Seq<char>>)
    requires
        order.no_duplicates(),
    ensures
        forall|i: int|
            0 <= i < arranged(nodes, order).len() ==> order.contains(
                (#[trigger] arranged(nodes, order)[i]).name,
            ) && nodes.contains(arranged(nodes, order)[i]),
        forall|i: int, j: int|
            #![trigger arranged(nodes, order)[i], arranged(nodes, order)[j]]
            0 <= i < j < arranged(nodes, order).len() ==> order.index_of(
                arranged(nodes, order)[i].name,
            ) <= order.index_of(arranged(nodes, order)[j].name),
        forall|m: int|
            0 <= m < nodes.len() && order.contains((#[trigger] nodes[m]).name) ==> arranged(
                nodes,
                order,
            ).contains(nodes[m]),
        names(nodes).no_duplicates() ==> names(arranged(nodes, order)).no_duplicates(),
    decreases order.len(),
{
    if order.len() > 0 {
        let front = order.drop_last();
        let name = order.last();
        let top = order.len() - 1;
        let out = arranged(nodes, order);
        let head = arranged(nodes, front);
        let block = picked(nodes, name);
        assert forall|i: int, j: int| 0 <= i < front.len() && 0 <= j < front.len() && i != j implies front[i]
            != front[j] by {
            assert(order[i] != order[j]);
        }
        if front.contains(name) {
            let at = choose|at: int| 0 <= at < front.len() && front[at] == name;
            assert(order[at] == order[top]);
        }
        assert(out == head + block);
        lemma_arranged(nodes, front);
        lemma_picked(nodes, name);
        lemma_index_of_unique(order, top);
        // where the name of each arranged node stands in the order
        assert forall|i: int| 0 <= i < out.len() implies order.contains((#[trigger] out[i]).name)
            && nodes.contains(out[i]) && (if i < head.len() {
            order.index_of(out[i].name) < top
        } else {
            order.index_of(out[i].name) == top
        }) by {
            if i < head.len() {
                assert(out[i] == head[i]);
                assert(front.contains(head[i].name));
                let at = front.index_of(head[i].name);
                assert(order[at] == head[i].name);
                lemma_index_of_unique(order, at);
            } else {
                assert(out[i] == block[i - head.len()]);
                assert(order[top] == out[i].name);
            }
        }
        assert forall|m: int| 0 <= m < nodes.len() && order.contains((#[trigger] nodes[m]).name) implies out.contains(
            nodes[m],
        ) by {
            if nodes[m].name == name {
                assert(block.contains(nodes[m]));
                let i = choose|i: int| 0 <= i < block.len() && block[i] == nodes[m];
                assert(out[head.len() + i] == nodes[m]);
            } else {
                let at = choose|at: int| 0 <= at < order.len() && order[at] == nodes[m].name;
                assert(front[at] == nodes[m].name);
                assert(front.contains(nodes[m].name));
                assert(head.contains(nodes[m]));
                let i = choose|i: int| 0 <= i < head.len() && head[i] == nodes[m];
                assert(out[i] == nodes[m]);
            }
        }
        if names(nodes).no_duplicates() {
            assert forall|i: int, j: int| 0 <= i < out.len() && 0 <= j < out.len() && i != j implies names(
                out,
            )[i] != names(out)[j] by {
                if i < head.len() && j < head.len() {
                    assert(names(head)[i] != names(head)[j]);
                } else if i >= head.len() && j >= head.len() {
                    assert(block.len() <= 1);
                } else {
                    assert(order.index_of(out[i].name) != order.index_of(out[j].name));
                }
            }
        }
    }
}

/// Arranged along a topological order of their identifiers, the nodes are
/// ordered: each stands after the nodes that provide what it consumes.
pub proof fn lemma_arranged_is_ordered(nodes: Seq<NodeView>, order: Seq<Seq<char>>)
    requires
        is_topological(order, identifiers(nodes), links(nodes)),
    ensures
        ordered(arranged(nodes, order)),
{
    let out = arranged(nodes, order);
    lemma_arranged(nodes, order);
    lemma_ends_identified(nodes);
    assert forall|i: int, j: int, x: Seq<char>|
        #![trigger provides(out[i], x), out[j].input.contains(x)]
        0 <= i < out.len() && 0 <= j < out.len() && provides(out[i], x) && out[j].input.contains(
            x,
        ) implies i < j by {
        let a = out[i];
        let b = out[j];
        assert(nodes.contains(a) && nodes.contains(b));
        let ma = choose|m: int| 0 <= m < nodes.len() && nodes[m] == a;
        let mb = choose|m: int| 0 <= m < nodes.len() && nodes[m] == b;
        lemma_links_of_node(nodes, ma);
        lemma_links_of_node(nodes, mb);
        assert(links(nodes).contains((x, b.name)));
        assert(identifiers(nodes).contains(x));
        assert(order.contains(x));
        assert(order.contains(a.name) && order.contains(b.name));
        let ra = order.index_of(a.name);
        let rb = order.index_of(b.name);
        let rx = order.index_of(x);
        assert(order[rx] == x && order[rb] == b.name && order[ra] == a.name);
        assert(links(nodes).contains((order[rx], order[rb])));
        assert(rx < rb);
        if a.name != x {
            assert(links(nodes).contains((a.name, x)));
            assert(links(nodes).contains((order[ra], order[rx])));
            assert(ra < rx);
        }
        assert(ra < rb);
        if j < i {
            assert(order.index_of(out[j].name) <= order.index_of(out[i].name));
        }
    }
}

/// Arranges the nodes in the order of their dependencies, or refuses them
/// because their links run in a circle.
///
/// On success every node stands after the nodes that provide what it
/// consumes; the result holds the same nodes as the list, and names that
/// were distinct stay distinct.
pub fn sort_nodes(nodes: Vec<NodeProto>) -> (r: Result<Vec<NodeProto>, BuildError>)
    ensures
        r is Err <==> has_cycle(links(views(nodes@))),
        r matches Ok(out) ==> {
            &&& views(out@) == arranged(views(nodes@), dependency_order(views(nodes@)))
            &&& ordered(views(out@))
            &&& forall|n: NodeView| views(out@).contains(n) <==> views(nodes@).contains(n)
            &&& names(views(nodes@)).no_duplicates() ==> names(views(out@)).no_duplicates()
        },
{
    let ghost all = views(nodes@);
    let (table, g) = wire(&nodes);
    let ghost t = texts(table@);
    proof {
        lemma_cycle_transfer(t, links(all), vertex_links(all));
    }
    match graph_toposort(&g) {
        Err(_) => Err(BuildError::Cycle),
        Ok(order) => {
            proof {
                lemma_named_topological(t, links(all), vertex_links(all), order@);
            }
            let mut sorted: Vec<String> = Vec::new();
            let mut k: usize = 0;
            while k < order.len()
                invariant
                    k <= order.len(),
                    sorted.len() == k,
                    t == texts(table@),
                    forall|j: int| 0 <= j < order.len() ==> order@[j] < table.len(),
                    forall|j: int| 0 <= j < k ==> (#[trigger] sorted@[j])@ == t[order@[j] as int],
                decreases order.len() - k,
            {
                sorted.push(table[order[k]].clone());
                k = k + 1;
            }
            let ghost along = texts(sorted@);
            proof {
                assert(along =~= named_order(t, order@));
                assert(along == dependency_order(all));
                lemma_arranged_is_ordered(all, along);
                lemma_arranged(all, along);
                let out = arranged(all, along);
                assert forall|n: NodeView| out.contains(n) <==> all.contains(n) by {
                    if out.contains(n) {
                        let i = choose|i: int| 0 <= i < out.len() && out[i] == n;
                        assert(all.contains(out[i]));
                    }
                    if all.contains(n) {
                        let m = choose|m: int| 0 <= m < all.len() && all[m] == n;
                        lemma_links_of_node(all, m);
                        lemma_first_occurrences(mentions(all));
                        assert(identifiers(all).contains(all[m].name));
                        assert(along.contains(all[m].name));
                        assert(out.contains(all[m]));
                    }
                }
            }
            Ok(arrange(nodes, &sorted))
        },
    }
}

/// The stops of the walk that follows a ring of nodes: the name of each
/// node, then what it hands to the next, and at the end the name of the
/// first node again.
pub open spec fn ring_walk(nodes: Seq<NodeView>, ring: Seq<int>, carried: Seq<Seq<char>>) -> Seq<
    Seq<char>,
> {
    Seq::new(
        (2 * ring.len() + 1) as nat,
        |k: int|
            if k == 2 * ring.len() {
                nodes[ring[0]].name
            } else if k % 2 == 0 {
                nodes[ring[k / 2]].name
            } else {
                carried[k / 2]
            },
    )
}

/// Nodes that feed one another in a ring have links that run in a circle:
/// if each node of `ring` produces a name that the next one consumes, and
/// the last one a name that the first consumes, the graph is refused. A
/// node that consumes one of its own outputs is such a ring by itself.
pub proof fn lemma_ring_is_cycle(nodes: Seq<NodeView>, ring: Seq<int>, carried: Seq<Seq<char>>)
    requires
        ring.len() >= 1,
        carried.len() == ring.len(),
        forall|i: int| 0 <= i < ring.len() ==> 0 <= #[trigger] ring[i] < nodes.len(),
        forall|i: int|
            0 <= i < ring.len() ==> nodes[ring[i]].output.contains(#[trigger] carried[i]),
        forall|i: int|
            0 <= i < ring.len() - 1 ==> nodes[ring[i + 1]].input.contains(#[trigger] carried[i]),
        nodes[ring[0]].input.contains(carried[ring.len() - 1]),
    ensures
        has_cycle(links(nodes)),
{
    let n = ring.len() as int;
    let w = ring_walk(nodes, ring, carried);
    assert forall|k: int| 0 <= k < w.len() - 1 implies links(nodes).contains(#[trigger] step(w, k)) by {
        let i = k / 2;
        assert(0 <= i < n);
        lemma_links_of_node(nodes, ring[i]);
        if k % 2 == 0 {
            assert(w[k] == nodes[ring[i]].name);
            assert(w[k + 1] == carried[i]);
            assert(nodes[ring[i]].output.contains(carried[i]));
        } else {
            assert(w[k] == carried[i]);
            if i == n - 1 {
                assert(k + 1 == 2 * n);
                assert(w[k + 1] == nodes[ring[0]].name);
                lemma_links_of_node(nodes, ring[0]);
            } else {
                assert((k + 1) / 2 == i + 1);
                assert(w[k + 1] == nodes[ring[i + 1]].name);
                lemma_links_of_node(nodes, ring[i + 1]);
                assert(nodes[ring[i + 1]].input.contains(carried[i]));
            }
        }
    }
    assert(w.first() == w.last());
    assert(is_walk(links(nodes), w));
}

/// A node that consumes its own name has a link to itself, which is a
/// circle.
pub proof fn lemma_self_link_is_cycle(nodes: Seq<NodeView>, m: int)
    requires
        0 <= m < nodes.len(),
        nodes[m].input.contains(nodes[m].name),
    ensures
        has_cycle(links(nodes)),
{
    let x = nodes[m].name;
    let w = seq![x, x];
    lemma_links_of_node(nodes, m);
    assert forall|k: int| 0 <= k < w.len() - 1 implies links(nodes).contains(#[trigger] step(w, k)) by {
        assert(step(w, k) == (x, x));
    }
    assert(w.first() == w.last());
    assert(is_walk(links(nodes), w));
}

} // verus!
