//! Keeping of every name the first element.

use vstd::prelude::*;

use crate::proto::{views, NodeProto, NodeView, ValueInfoProto, ValueInfoView};
use crate::seqs::{distinct_by, keys};

verus! {

/// The name of a node.
pub open spec fn node_name() -> spec_fn(NodeView) -> Seq<char> {
    |n: NodeView| n.name
}

/// The name of a value.
pub open spec fn value_name() -> spec_fn(ValueInfoView) -> Seq<char> {
    |v: ValueInfoView| v.name
}

/// The names of a list of nodes.
pub open spec fn names(nodes: Seq<NodeView>) -> Seq<Seq<char>> {
    keys(nodes, node_name())
}

/// The names of a list of values.
pub open spec fn value_names(values: Seq<ValueInfoView>) -> Seq<Seq<char>> {
    keys(values, value_name())
}

/// Removes the nodes whose name an earlier node bears.
pub fn dedup_nodes(list: Vec<NodeProto>) -> (r: Vec<NodeProto>)
    ensures
        views(r@) == distinct_by(views(list@), node_name()),
{
    let ghost all = views(list@);
    let mut out: Vec<NodeProto> = Vec::new();
    proof {
        assert(all.take(0) =~= Seq::empty());
        assert(views(out@) =~= distinct_by(all.take(0), node_name()));
    }
    for node in it: list
        invariant
            it.seq() == list@,
            all == views(list@),
            views(out@) == distinct_by(all.take(it.index() as int), node_name()),
    {
        let ghost at = it.index() as int;
        let ghost kept = views(out@);
        let mut known = false;
        let mut k: usize = 0;
        while k < out.len()
            invariant
                k <= out.len(),
                kept == views(out@),
                known <==> exists|j: int| 0 <= j < k && kept[j].name == node@.name,
            decreases out.len() - k,
        {
            if out[k].name == node.name {
                known = true;
                assert(kept[k as int].name == node@.name);
            }
            k = k + 1;
        }
        proof {
            assert(all.take(at + 1).drop_last() =~= all.take(at));
            assert(all.take(at + 1).last() == node@);
            let ks = keys(kept, node_name());
            if known {
                let j = choose|j: int| 0 <= j < kept.len() && kept[j].name == node@.name;
                assert(ks[j] == node@.name);
            }
            if ks.contains(node@.name) {
                let j = choose|j: int| 0 <= j < ks.len() && ks[j] == node@.name;
                assert(kept[j].name == node@.name);
            }
            assert(known <==> ks.contains(node_name()(node@)));
        }
        if !known {
            out.push(node);
            proof {
                assert(views(out@) =~= kept.push(node@));
            }
        }
    }
    proof {
        assert(all.take(list@.len() as int) =~= all);
    }
    out
}

/// Removes the values whose name an earlier value bears.
pub fn dedup_values(list: Vec<ValueInfoProto>) -> (r: Vec<ValueInfoProto>)
    ensures
        views(r@) == distinct_by(views(list@), value_name()),
{
    let ghost all = views(list@);
    let mut out: Vec<ValueInfoProto> = Vec::new();
    proof {
        assert(all.take(0) =~= Seq::empty());
        assert(views(out@) =~= distinct_by(all.take(0), value_name()));
    }
    for value in it: list
        invariant
            it.seq() == list@,
            all == views(list@),
            views(out@) == distinct_by(all.take(it.index() as int), value_name()),
    {
        let ghost at = it.index() as int;
        let ghost kept = views(out@);
        let mut known = false;
        let mut k: usize = 0;
        while k < out.len()
            invariant
                k <= out.len(),
                kept == views(out@),
                known <==> exists|j: int| 0 <= j < k && kept[j].name == value@.name,
            decreases out.len() - k,
        {
            if out[k].name == value.name {
                known = true;
                assert(kept[k as int].name == value@.name);
            }
            k = k + 1;
        }
        proof {
            assert(all.take(at + 1).drop_last() =~= all.take(at));
            assert(all.take(at + 1).last() == value@);
            let ks = keys(kept, value_name());
            if known {
                let j = choose|j: int| 0 <= j < kept.len() && kept[j].name == value@.name;
                assert(ks[j] == value@.name);
            }
            if ks.contains(value@.name) {
                let j = choose|j: int| 0 <= j < ks.len() && ks[j] == value@.name;
                assert(kept[j].name == value@.name);
            }
            assert(known <==> ks.contains(value_name()(value@)));
        }
        if !known {
            out.push(value);
            proof {
                assert(views(out@) =~= kept.push(value@));
            }
        }
    }
    proof {
        assert(all.take(list@.len() as int) =~= all);
    }
    out
}

} // verus!
