//! The bag: the arena that collects every node, input and output made while
//! one graph is under construction.
//!
//! A bag belongs to one graph builder. Every operation that may add to it or
//! rename in it receives it by mutable reference, so there is one writer at
//! any time; it is not meant to be filled from several threads.

use vstd::prelude::*;

use crate::proto::{views, NodeProto, NodeView, ValueInfoProto, ValueInfoView};

verus! {

/// Tells whether a value is registered as an input or as an output.
#[derive(Clone, Copy, Debug, PartialEq, Eq, Structural)]
pub enum Marker {
    Input,
    Output,
}

/// The elements registered so far, each list in the order of registration.
/// Registration order is not execution order: nodes are ordered when the
/// graph is built.
#[derive(Debug)]
pub struct Bag {
    pub nodes: Vec<NodeProto>,
    pub inputs: Vec<ValueInfoProto>,
    pub outputs: Vec<ValueInfoProto>,
}

/// View of a [`Bag`].
pub struct BagView {
    pub nodes: Seq<NodeView>,
    pub inputs: Seq<ValueInfoView>,
    pub outputs: Seq<ValueInfoView>,
}

impl View for Bag {
    type V = BagView;

    open spec fn view(&self) -> BagView {
        BagView {
            nodes: views(self.nodes@),
            inputs: views(self.inputs@),
            outputs: views(self.outputs@),
        }
    }
}

/// `new` where the identifier is `old`, the identifier itself elsewhere.
pub open spec fn swapped(s: Seq<char>, old: Seq<char>, new: Seq<char>) -> Seq<char> {
    if s == old {
        new
    } else {
        s
    }
}

/// A list of identifiers with every occurrence of `old` replaced by `new`.
pub open spec fn swapped_all(v: Seq<Seq<char>>, old: Seq<char>, new: Seq<char>) -> Seq<Seq<char>> {
    Seq::new(v.len(), |k: int| swapped(v[k], old, new))
}

/// A node with every occurrence of `old` replaced by `new`: in its name,
/// among the names it consumes and among the names it produces.
pub open spec fn renamed_node(n: NodeView, old: Seq<char>, new: Seq<char>) -> NodeView {
    NodeView {
        name: swapped(n.name, old, new),
        input: swapped_all(n.input, old, new),
        output: swapped_all(n.output, old, new),
        ..n
    }
}

/// A value renamed from `old` to `new` if `old` is its name.
pub open spec fn renamed_value(v: ValueInfoView, old: Seq<char>, new: Seq<char>) -> ValueInfoView {
    ValueInfoView { name: swapped(v.name, old, new), ..v }
}

/// A bag with the identifier `old` replaced by `new` in every element but
/// the node at `skip`, which stays as it is.
pub open spec fn renamed_bag(b: BagView, skip: Option<int>, old: Seq<char>, new: Seq<char>) -> BagView {
    BagView {
        nodes: Seq::new(
            b.nodes.len(),
            |k: int|
                if skip == Some(k) {
                    b.nodes[k]
                } else {
                    renamed_node(b.nodes[k], old, new)
                },
        ),
        inputs: Seq::new(b.inputs.len(), |k: int| renamed_value(b.inputs[k], old, new)),
        outputs: Seq::new(b.outputs.len(), |k: int| renamed_value(b.outputs[k], old, new)),
    }
}

/// Whether an identifier occurs in a node: as its name, among the names it
/// consumes or among the names it produces.
pub open spec fn node_mentions(n: NodeView, id: Seq<char>) -> bool {
    n.name == id || n.input.contains(id) || n.output.contains(id)
}

/// Replaces every occurrence of `name` in a list of identifiers.
pub fn rename_in(list: &mut Vec<String>, name: &String, new_name: &String)
    ensures
        views(final(list)@) == swapped_all(views(old(list)@), name@, new_name@),
{
    let mut k: usize = 0;
    while k < list.len()
        invariant
            k <= list.len(),
            list.len() == old(list).len(),
            forall|j: int| 0 <= j < k ==> (#[trigger] list@[j])@ == swapped(old(list)@[j]@, name@, new_name@),
            forall|j: int| k <= j < list.len() ==> list@[j] == old(list)@[j],
        decreases list.len() - k,
    {
        if list[k] == *name {
            list[k] = new_name.clone();
        }
        k = k + 1;
    }
    assert(views(list@) =~= swapped_all(views(old(list)@), name@, new_name@));
}

fn rename_values(list: &mut Vec<ValueInfoProto>, name: &String, new_name: &String)
    ensures
        views(final(list)@) == Seq::new(
            old(list)@.len(),
            |k: int| renamed_value(old(list)@[k]@, name@, new_name@),
        ),
{
    let mut k: usize = 0;
    while k < list.len()
        invariant
            k <= list.len(),
            list.len() == old(list).len(),
            forall|j: int| 0 <= j < k ==> (#[trigger] list@[j])@ == renamed_value(old(list)@[j]@, name@, new_name@),
            forall|j: int| k <= j < list.len() ==> list@[j] == old(list)@[j],
        decreases list.len() - k,
    {
        if list[k].name == *name {
            list[k].name = new_name.clone();
        }
        k = k + 1;
    }
    assert(views(list@) =~= Seq::new(
        old(list)@.len(),
        |k: int| renamed_value(old(list)@[k]@, name@, new_name@),
    ));
}

/// Replaces every occurrence of `name` in one node.
pub fn rename_node(node: &mut NodeProto, name: &String, new_name: &String)
    ensures
        final(node)@ == renamed_node(old(node)@, name@, new_name@),
{
    if node.name == *name {
        node.name = new_name.clone();
    }
    rename_in(&mut node.input, name, new_name);
    rename_in(&mut node.output, name, new_name);
    assert(node@.attribute =~= old(node)@.attribute);
}

impl Bag {
    /// An empty bag.
    pub fn new() -> (r: Self)
        ensures
            r@ == (BagView { nodes: Seq::empty(), inputs: Seq::empty(), outputs: Seq::empty() }),
    {
        let r = Bag { nodes: Vec::new(), inputs: Vec::new(), outputs: Vec::new() };
        assert(views(r.nodes@) =~= Seq::<NodeView>::empty());
        assert(views(r.inputs@) =~= Seq::<ValueInfoView>::empty());
        assert(views(r.outputs@) =~= Seq::<ValueInfoView>::empty());
        r
    }

    /// Copies of the registered nodes as they are now, after every rename
    /// applied so far.
    pub fn nodes(&self) -> (r: Vec<NodeProto>)
        ensures
            views(r@) == self@.nodes,
    {
        let r = self.nodes.clone();
        assert(views(r@) =~= views(self.nodes@));
        r
    }

    /// Copies of the registered inputs as they are now.
    pub fn inputs(&self) -> (r: Vec<ValueInfoProto>)
        ensures
            views(r@) == self@.inputs,
    {
        let r = self.inputs.clone();
        assert(views(r@) =~= views(self.inputs@));
        r
    }

    /// Copies of the registered outputs as they are now.
    pub fn outputs(&self) -> (r: Vec<ValueInfoProto>)
        ensures
            views(r@) == self@.outputs,
    {
        let r = self.outputs.clone();
        assert(views(r@) =~= views(self.outputs@));
        r
    }

    /// Registers a value as an input or an output. Nothing is compared: a
    /// name may be registered twice.
    pub fn value(&mut self, value: ValueInfoProto, marker: Marker)
        ensures
            final(self)@ == match marker {
                Marker::Input => BagView { inputs: old(self)@.inputs.push(value@), ..old(self)@ },
                Marker::Output => BagView { outputs: old(self)@.outputs.push(value@), ..old(self)@ },
            },
    {
        match marker {
            Marker::Input => {
                self.inputs.push(value);
                assert(views(self.inputs@) =~= views(old(self).inputs@).push(value@));
            },
            Marker::Output => {
                self.outputs.push(value);
                assert(views(self.outputs@) =~= views(old(self).outputs@).push(value@));
            },
        }
    }

    /// Registers a node and returns its place in the list. The bag holds the
    /// node from now on: whoever keeps the place reads and renames the one
    /// node that the bag lists.
    pub fn node(&mut self, node: NodeProto) -> (slot: usize)
        ensures
            slot == old(self).nodes.len(),
            final(self)@ == (BagView { nodes: old(self)@.nodes.push(node@), ..old(self)@ }),
    {
        let slot = self.nodes.len();
        self.nodes.push(node);
        assert(views(self.nodes@) =~= views(old(self).nodes@).push(node@));
        slot
    }

    /// Replaces the identifier `name` by `new_name` wherever a registered
    /// node, input or output holds it. Nothing changes where nothing holds
    /// `name`.
    pub fn rename(&mut self, name: &str, new_name: &str)
        ensures
            final(self)@ == renamed_bag(old(self)@, None, name@, new_name@),
    {
        self.rename_around(None, name, new_name)
    }

    /// As [`Bag::rename`], but leaves the node at `skip` as it is: the caller
    /// is renaming that node and finishes it by hand.
    pub fn rename_around(&mut self, skip: Option<usize>, name: &str, new_name: &str)
        ensures
            final(self)@ == renamed_bag(
                old(self)@,
                match skip {
                    Some(s) => Some(s as int),
                    None => None,
                },
                name@,
                new_name@,
            ),
    {
        let from = name.to_owned();
        let to = new_name.to_owned();
        let ghost skipped: Option<int> = match skip {
            Some(s) => Some(s as int),
            None => None,
        };
        let mut k: usize = 0;
        while k < self.nodes.len()
            invariant
                k <= self.nodes.len(),
                self.nodes.len() == old(self).nodes.len(),
                self.inputs == old(self).inputs,
                self.outputs == old(self).outputs,
                from@ == name@,
                to@ == new_name@,
                skipped == match skip {
                    Some(s) => Some(s as int),
                    None => None,
                },
                forall|j: int|
                    0 <= j < k ==> (#[trigger] self.nodes@[j])@ == if skipped == Some(j) {
                        old(self).nodes@[j]@
                    } else {
                        renamed_node(old(self).nodes@[j]@, name@, new_name@)
                    },
                forall|j: int| k <= j < self.nodes.len() ==> self.nodes@[j] == old(self).nodes@[j],
            decreases self.nodes.len() - k,
        {
            let spare = match skip {
                Some(s) => s == k,
                None => false,
            };
            if !spare {
                rename_node(&mut self.nodes[k], &from, &to);
            }
            k = k + 1;
        }
        rename_values(&mut self.inputs, &from, &to);
        rename_values(&mut self.outputs, &from, &to);
        proof {
            let want = renamed_bag(old(self)@, skipped, name@, new_name@);
            assert(self@.nodes =~= want.nodes);
            assert(self@.inputs =~= want.inputs);
            assert(self@.outputs =~= want.outputs);
        }
    }
}

impl Default for Bag {
    fn default() -> (r: Self)
        ensures
            r@ == (BagView { nodes: Seq::empty(), inputs: Seq::empty(), outputs: Seq::empty() }),
    {
        Bag::new()
    }
}

impl Clone for Bag {
    fn clone(&self) -> (r: Self)
        ensures
            r@ == self@,
    {
        Bag { nodes: self.nodes(), inputs: self.inputs(), outputs: self.outputs() }
    }
}

/// Renaming an identifier that nothing holds changes nothing.
pub proof fn lemma_rename_of_absent(b: BagView, skip: Option<int>, old: Seq<char>, new: Seq<char>)
    requires
        forall|k: int| 0 <= k < b.nodes.len() ==> !node_mentions(#[trigger] b.nodes[k], old),
        forall|k: int| 0 <= k < b.inputs.len() ==> (#[trigger] b.inputs[k]).name != old,
        forall|k: int| 0 <= k < b.outputs.len() ==> (#[trigger] b.outputs[k]).name != old,
    ensures
        renamed_bag(b, skip, old, new) == b,
{
    let r = renamed_bag(b, skip, old, new);
    assert forall|k: int| 0 <= k < b.nodes.len() implies r.nodes[k] == b.nodes[k] by {
        let n = b.nodes[k];
        assert(!node_mentions(n, old));
        assert forall|i: int| 0 <= i < n.input.len() implies n.input[i] != old by {
            assert(n.input.contains(n.input[i]));
        }
        assert forall|i: int| 0 <= i < n.output.len() implies n.output[i] != old by {
            assert(n.output.contains(n.output[i]));
        }
        assert(swapped_all(n.input, old, new) =~= n.input);
        assert(swapped_all(n.output, old, new) =~= n.output);
    }
    assert(r.nodes =~= b.nodes);
    assert(r.inputs =~= b.inputs);
    assert(r.outputs =~= b.outputs);
}

} // verus!
