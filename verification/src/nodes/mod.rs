//! Nodes of a graph under construction and the operations that derive new
//! nodes from them.

pub mod ops;

pub use self::ops::concat;

use vstd::prelude::*;
use vstd::std_specs::convert::FromSpecImpl;

use crate::builder::bag::{node_mentions, renamed_bag, renamed_node, swapped, Bag, BagView};
use crate::proto::{views, NodeProto, NodeView, ValueInfoProto};
use crate::text::{decimal, decimal_of_usize, texts};

verus! {

/// Where the record of a node is kept.
#[derive(Debug)]
pub enum Place {
    /// The node holds its record itself: no bag lists it.
    Held(NodeProto),
    /// The bag lists the node at this place and holds its record.
    Listed(usize),
}

/// A node of a graph under construction.
///
/// A node that belongs to a graph registers every node derived from it in
/// the graph's bag. The bag is handed to each operation explicitly; a node
/// must be used with the bag of the graph it came from.
#[derive(Debug)]
pub struct Node {
    pub place: Place,
    /// Whether the node belongs to a graph. A listed node always does.
    pub bagged: bool,
}

/// The name by which other nodes consume a node: its own name for a node
/// without operation (the stand-in of a graph input), else the first name
/// it produces. A record that names no output is consumed by its name.
pub open spec fn resolved(n: NodeView) -> Seq<char> {
    if n.op_type.len() == 0 || n.output.len() == 0 {
        n.name
    } else {
        n.output[0]
    }
}

/// The place to skip as the bag's rename takes it.
pub open spec fn as_skip(skip: Option<usize>) -> Option<int> {
    match skip {
        Some(s) => Some(s as int),
        None => None,
    }
}

/// The names of the outputs of a node renamed to `name`: the name followed
/// by the index of the output in decimal.
pub open spec fn numbered(name: Seq<char>, count: nat) -> Seq<Seq<char>> {
    Seq::new(count, |k: int| name + decimal(k))
}

/// A record renamed to `name`: the new name, and each output renamed to the
/// name followed by its index.
pub open spec fn retitled(n: NodeView, name: Seq<char>) -> NodeView {
    NodeView { name, output: numbered(name, n.output.len()), ..n }
}

/// The bag after the first `upto` outputs of a node were renamed in it, one
/// after the other.
pub open spec fn outputs_renamed(
    b: BagView,
    skip: Option<int>,
    outputs: Seq<Seq<char>>,
    name: Seq<char>,
    upto: nat,
) -> BagView
    decreases upto,
{
    if upto == 0 {
        b
    } else {
        renamed_bag(
            outputs_renamed(b, skip, outputs, name, (upto - 1) as nat),
            skip,
            outputs[upto - 1],
            name + decimal(upto - 1),
        )
    }
}

/// The bag after the renaming of a node to `name` was carried to all other
/// elements: first each of its outputs in turn, then its name.
pub open spec fn propagated(b: BagView, skip: Option<int>, n: NodeView, name: Seq<char>) -> BagView {
    renamed_bag(outputs_renamed(b, skip, n.output, name, n.output.len()), skip, n.name, name)
}

/// States that `r` is a new node with the record `rec`, made on behalf of a
/// node or builder that belongs to a graph (`attached`) or does not: in the
/// first case the bag lists it as its last node, in the second the bag is
/// unchanged and the node holds its record.
pub open spec fn settled(attached: bool, before: &Bag, after: &Bag, r: Node, rec: NodeView) -> bool {
    if attached {
        &&& r.place == Place::Listed(before.nodes.len())
        &&& r.bagged
        &&& after@ == (BagView { nodes: before@.nodes.push(rec), ..before@ })
    } else {
        &&& r.place matches Place::Held(p) && p@ == rec
        &&& !r.bagged
        &&& after@ == before@
    }
}

impl Node {
    /// Whether the node belongs to a graph.
    pub open spec fn attached(&self) -> bool {
        self.bagged || self.place is Listed
    }

    /// Whether the bag can be the one of this node: a listed node needs its
    /// place to exist there.
    pub open spec fn within(&self, bag: &Bag) -> bool {
        self.place matches Place::Listed(s) ==> s < bag.nodes.len()
    }

    /// The record of the node as it is now.
    pub open spec fn record(&self, bag: &Bag) -> NodeView {
        match self.place {
            Place::Held(p) => p@,
            Place::Listed(s) => bag.nodes[s as int]@,
        }
    }

    /// The place that the bag's renames leave alone while this node is
    /// renamed.
    pub open spec fn skip(&self) -> Option<int> {
        match self.place {
            Place::Held(_) => None,
            Place::Listed(s) => Some(s as int),
        }
    }

    /// Creates new node from proto. The node belongs to no graph.
    pub fn from_proto(inner: NodeProto) -> (r: Self)
        ensures
            r.place == Place::Held(inner),
            !r.bagged,
    {
        Node { place: Place::Held(inner), bagged: false }
    }

    /// Tells whether the bag can be the one of this node.
    pub fn is_within(&self, bag: &Bag) -> (r: bool)
        ensures
            r == self.within(bag),
    {
        match &self.place {
            Place::Held(_) => true,
            Place::Listed(s) => *s < bag.nodes.len(),
        }
    }

    /// Returns node name.
    pub fn name(&self, bag: &Bag) -> (r: String)
        requires
            self.within(bag),
        ensures
            r@ == self.record(bag).name,
    {
        match &self.place {
            Place::Held(p) => p.name.clone(),
            Place::Listed(s) => bag.nodes[*s].name.clone(),
        }
    }

    /// A copy of the record of the node as it is now.
    pub fn proto(&self, bag: &Bag) -> (r: NodeProto)
        requires
            self.within(bag),
        ensures
            r@ == self.record(bag),
    {
        match &self.place {
            Place::Held(p) => p.clone(),
            Place::Listed(s) => bag.nodes[*s].clone(),
        }
    }

    /// The value that declares what this node provides: it bears the name
    /// by which the node is consumed, and neither type nor documentation.
    pub fn value_info(&self, bag: &Bag) -> (r: ValueInfoProto)
        requires
            self.within(bag),
        ensures
            r@ == ValueInfoProto::spec_named(resolved(self.record(bag))),
    {
        let name = self.select_output(bag);
        ValueInfoProto::named(name.as_str())
    }

    /// The name by which other nodes consume this node.
    pub fn select_output(&self, bag: &Bag) -> (r: String)
        requires
            self.within(bag),
        ensures
            r@ == resolved(self.record(bag)),
    {
        match &self.place {
            Place::Held(p) => select(p),
            Place::Listed(s) => select(&bag.nodes[*s]),
        }
    }
}

/// The name by which other nodes consume the node of a record.
pub fn select(node: &NodeProto) -> (r: String)
    ensures
        r@ == resolved(node@),
{
    if node.op_type.as_str().is_empty() || node.output.len() == 0 {
        node.name.clone()
    } else {
        node.output[0].clone()
    }
}

/// Registers the node in the bag if it is to belong to a graph and is not
/// listed yet.
pub fn maybe_bag_node(attached: bool, bag: &mut Bag, node: Node) -> (r: Node)
    ensures
        match node.place {
            Place::Held(p) => settled(attached, old(bag), final(bag), r, p@),
            Place::Listed(_) => r == node && final(bag)@ == old(bag)@,
        },
{
    if attached {
        match node.place {
            Place::Held(p) => {
                let slot = bag.node(p);
                Node { place: Place::Listed(slot), bagged: true }
            },
            Place::Listed(s) => Node { place: Place::Listed(s), bagged: node.bagged },
        }
    } else {
        match node.place {
            Place::Held(p) => Node { place: Place::Held(p), bagged: false },
            Place::Listed(s) => Node { place: Place::Listed(s), bagged: node.bagged },
        }
    }
}

/// Renames in the bag if the renaming node belongs to a graph.
pub fn maybe_bag_rename(attached: bool, bag: &mut Bag, skip: Option<usize>, name: &str, new_name: &str)
    ensures
        final(bag)@ == if attached {
            renamed_bag(old(bag)@, as_skip(skip), name@, new_name@)
        } else {
            old(bag)@
        },
{
    if attached {
        bag.rename_around(skip, name, new_name);
    }
}

/// Carries the renaming of a node to the other elements of the bag, if the
/// node belongs to a graph, and returns the new names of its outputs.
fn carry(
    attached: bool,
    bag: &mut Bag,
    skip: Option<usize>,
    outputs: &Vec<String>,
    old_name: &String,
    name: &str,
) -> (fresh: Vec<String>)
    ensures
        texts(fresh@) == numbered(name@, outputs@.len()),
        final(bag)@ == if attached {
            renamed_bag(
                outputs_renamed(old(bag)@, as_skip(skip), texts(outputs@), name@, outputs@.len()),
                as_skip(skip),
                old_name@,
                name@,
            )
        } else {
            old(bag)@
        },
{
    let mut fresh: Vec<String> = Vec::new();
    let mut k: usize = 0;
    while k < outputs.len()
        invariant
            k <= outputs.len(),
            fresh.len() == k,
            forall|j: int| 0 <= j < k ==> (#[trigger] fresh@[j])@ == name@ + decimal(j),
            bag@ == if attached {
                outputs_renamed(old(bag)@, as_skip(skip), texts(outputs@), name@, k as nat)
            } else {
                old(bag)@
            },
        decreases outputs.len() - k,
    {
        let mut numbered_name = name.to_owned();
        numbered_name.append(decimal_of_usize(k).as_str());
        maybe_bag_rename(attached, bag, skip, outputs[k].as_str(), numbered_name.as_str());
        fresh.push(numbered_name);
        k = k + 1;
    }
    maybe_bag_rename(attached, bag, skip, old_name.as_str(), name);
    assert(texts(fresh@) =~= numbered(name@, outputs@.len()));
    fresh
}

impl Node {
    /// Tells whether the node belongs to a graph.
    pub fn is_attached(&self) -> (r: bool)
        ensures
            r == self.attached(),
    {
        match &self.place {
            Place::Held(_) => self.bagged,
            Place::Listed(_) => true,
        }
    }

    /// The bag after this node was renamed to `name`: unchanged for a node
    /// that belongs to no graph; else the renaming is carried to every other
    /// element, and a listed node is renamed in its place.
    pub open spec fn renamed_in(&self, bag: &Bag, name: Seq<char>) -> BagView {
        match self.place {
            Place::Held(p) => if self.bagged {
                propagated(bag@, None, p@, name)
            } else {
                bag@
            },
            Place::Listed(s) => {
                let carried = propagated(bag@, Some(s as int), bag@.nodes[s as int], name);
                BagView {
                    nodes: carried.nodes.update(s as int, retitled(bag@.nodes[s as int], name)),
                    ..carried
                }
            },
        }
    }

    /// Renames the node, and its outputs accordingly: the output at index
    /// `i` becomes the name followed by `i`. In the bag of a node that
    /// belongs to a graph, every other element that holds one of the old
    /// identifiers is renamed with it.
    pub fn with_name(self, name: &str, bag: &mut Bag) -> (r: Node)
        requires
            self.within(old(bag)),
        ensures
            r.bagged == self.bagged,
            r.place is Listed ==> r.place == self.place,
            r.place is Held <==> self.place is Held,
            r.within(final(bag)),
            r.record(final(bag)) == retitled(self.record(old(bag)), name@),
            final(bag)@ == self.renamed_in(old(bag), name@),
    {
        let bagged = self.bagged;
        match self.place {
            Place::Held(p) => {
                let mut inner = p;
                let fresh = carry(bagged, bag, None, &inner.output, &inner.name, name);
                inner.output = fresh;
                inner.name = name.to_owned();
                proof {
                    assert(views(p.output@) =~= texts(p.output@));
                    assert(views(inner.output@) =~= numbered(name@, p@.output.len()));
                    assert(inner@.attribute =~= p@.attribute);
                }
                Node { place: Place::Held(inner), bagged }
            },
            Place::Listed(s) => {
                let outputs = bag.nodes[s].output.clone();
                let old_name = bag.nodes[s].name.clone();
                let ghost before = bag.nodes[s as int]@;
                proof {
                    assert(texts(outputs@) =~= before.output);
                }
                let fresh = carry(true, bag, Some(s), &outputs, &old_name, name);
                let ghost carried = bag@;
                proof {
                    let mid = outputs_renamed(
                        old(bag)@,
                        Some(s as int),
                        before.output,
                        name@,
                        outputs@.len() as nat,
                    );
                    lemma_skip_kept(old(bag)@, s as int, before.output, name@, outputs@.len() as nat);
                    assert(carried == renamed_bag(mid, Some(s as int), old_name@, name@));
                    assert(carried.nodes.len() == mid.nodes.len());
                    assert(carried.nodes[s as int] == mid.nodes[s as int]);
                    assert(bag.nodes@.len() == carried.nodes.len());
                    assert(bag.nodes[s as int]@ == carried.nodes[s as int]);
                }
                bag.nodes[s].output = fresh;
                bag.nodes[s].name = name.to_owned();
                proof {
                    assert(views(bag.nodes[s as int].output@) =~= numbered(name@, before.output.len()));
                    assert(bag.nodes[s as int]@.attribute =~= before.attribute);
                    assert(bag.nodes[s as int]@ == retitled(before, name@));
                    assert(bag@.nodes =~= carried.nodes.update(s as int, retitled(before, name@)));
                }
                Node { place: Place::Listed(s), bagged }
            },
        }
    }
}

impl Node {
    /// Creates new addition operation over this node and `rhs`.
    pub fn add(&self, rhs: &Node, bag: &mut Bag) -> (r: Node)
        requires
            self.within(old(bag)),
            rhs.within(old(bag)),
        ensures
            settled(
                self.attached(),
                old(bag),
                final(bag),
                r,
                ops::Add::made(resolved(self.record(old(bag))), resolved(rhs.record(old(bag)))),
            ),
    {
        let left = self.select_output(bag);
        let right = rhs.select_output(bag);
        let node = ops::Add::new(left.as_str(), right.as_str()).into_node();
        maybe_bag_node(self.is_attached(), bag, node)
    }

    /// Creates new subtraction operation over this node and `rhs`.
    pub fn sub(&self, rhs: &Node, bag: &mut Bag) -> (r: Node)
        requires
            self.within(old(bag)),
            rhs.within(old(bag)),
        ensures
            settled(
                self.attached(),
                old(bag),
                final(bag),
                r,
                ops::Sub::made(resolved(self.record(old(bag))), resolved(rhs.record(old(bag)))),
            ),
    {
        let left = self.select_output(bag);
        let right = rhs.select_output(bag);
        let node = ops::Sub::new(left.as_str(), right.as_str()).into_node();
        maybe_bag_node(self.is_attached(), bag, node)
    }

    /// Creates new multiplication operation over this node and `rhs`.
    pub fn mul(&self, rhs: &Node, bag: &mut Bag) -> (r: Node)
        requires
            self.within(old(bag)),
            rhs.within(old(bag)),
        ensures
            settled(
                self.attached(),
                old(bag),
                final(bag),
                r,
                ops::Mul::made(resolved(self.record(old(bag))), resolved(rhs.record(old(bag)))),
            ),
    {
        let left = self.select_output(bag);
        let right = rhs.select_output(bag);
        let node = ops::Mul::new(left.as_str(), right.as_str()).into_node();
        maybe_bag_node(self.is_attached(), bag, node)
    }

    /// Creates new division operation over this node and `rhs`.
    pub fn div(&self, rhs: &Node, bag: &mut Bag) -> (r: Node)
        requires
            self.within(old(bag)),
            rhs.within(old(bag)),
        ensures
            settled(
                self.attached(),
                old(bag),
                final(bag),
                r,
                ops::Div::made(resolved(self.record(old(bag))), resolved(rhs.record(old(bag)))),
            ),
    {
        let left = self.select_output(bag);
        let right = rhs.select_output(bag);
        let node = ops::Div::new(left.as_str(), right.as_str()).into_node();
        maybe_bag_node(self.is_attached(), bag, node)
    }

    /// Creates new square root operation.
    pub fn sqrt(&self, bag: &mut Bag) -> (r: Node)
        requires
            self.within(old(bag)),
        ensures
            settled(
                self.attached(),
                old(bag),
                final(bag),
                r,
                ops::Sqrt::made(resolved(self.record(old(bag)))),
            ),
    {
        let input = self.select_output(bag);
        let node = ops::Sqrt::new(input.as_str()).into_node();
        maybe_bag_node(self.is_attached(), bag, node)
    }

    /// Creates new absolute value operation.
    pub fn abs(&self, bag: &mut Bag) -> (r: Node)
        requires
            self.within(old(bag)),
        ensures
            settled(
                self.attached(),
                old(bag),
                final(bag),
                r,
                ops::Abs::made(resolved(self.record(old(bag)))),
            ),
    {
        let input = self.select_output(bag);
        let node = ops::Abs::new(input.as_str()).into_node();
        maybe_bag_node(self.is_attached(), bag, node)
    }

    /// Creates new relu activation operation.
    pub fn relu(&self, bag: &mut Bag) -> (r: Node)
        requires
            self.within(old(bag)),
        ensures
            settled(
                self.attached(),
                old(bag),
                final(bag),
                r,
                ops::Relu::made(resolved(self.record(old(bag)))),
            ),
    {
        let input = self.select_output(bag);
        let node = ops::Relu::new(input.as_str()).into_node();
        maybe_bag_node(self.is_attached(), bag, node)
    }

    /// Creates new tanh activation operation.
    pub fn tanh(&self, bag: &mut Bag) -> (r: Node)
        requires
            self.within(old(bag)),
        ensures
            settled(
                self.attached(),
                old(bag),
                final(bag),
                r,
                ops::Tanh::made(resolved(self.record(old(bag)))),
            ),
    {
        let input = self.select_output(bag);
        let node = ops::Tanh::new(input.as_str()).into_node();
        maybe_bag_node(self.is_attached(), bag, node)
    }

    /// Creates new size operation.
    pub fn size(&self, bag: &mut Bag) -> (r: Node)
        requires
            self.within(old(bag)),
        ensures
            settled(
                self.attached(),
                old(bag),
                final(bag),
                r,
                ops::Size::made(resolved(self.record(old(bag)))),
            ),
    {
        let input = self.select_output(bag);
        let node = ops::Size::new(input.as_str()).into_node();
        maybe_bag_node(self.is_attached(), bag, node)
    }

    /// Creates new negation operation.
    pub fn neg(&self, bag: &mut Bag) -> (r: Node)
        requires
            self.within(old(bag)),
        ensures
            settled(
                self.attached(),
                old(bag),
                final(bag),
                r,
                ops::Neg::made(resolved(self.record(old(bag)))),
            ),
    {
        let input = self.select_output(bag);
        let node = ops::Neg::new(input.as_str()).into_node();
        maybe_bag_node(self.is_attached(), bag, node)
    }

    /// Creates new logical not operation.
    pub fn not(&self, bag: &mut Bag) -> (r: Node)
        requires
            self.within(old(bag)),
        ensures
            settled(
                self.attached(),
                old(bag),
                final(bag),
                r,
                ops::Not::made(resolved(self.record(old(bag)))),
            ),
    {
        let input = self.select_output(bag);
        let node = ops::Not::new(input.as_str()).into_node();
        maybe_bag_node(self.is_attached(), bag, node)
    }

    /// Creates new power operation.
    pub fn pow(&self, power: &str, bag: &mut Bag) -> (r: Node)
        requires
            self.within(old(bag)),
        ensures
            settled(
                self.attached(),
                old(bag),
                final(bag),
                r,
                ops::Pow::made(resolved(self.record(old(bag))), power@),
            ),
    {
        let input = self.select_output(bag);
        let node = ops::Pow::new(input.as_str(), power).into_node();
        maybe_bag_node(self.is_attached(), bag, node)
    }

    /// Creates new equal comparison operation.
    pub fn equal(&self, right: &str, bag: &mut Bag) -> (r: Node)
        requires
            self.within(old(bag)),
        ensures
            settled(
                self.attached(),
                old(bag),
                final(bag),
                r,
                ops::Equal::made(resolved(self.record(old(bag))), right@),
            ),
    {
        let input = self.select_output(bag);
        let node = ops::Equal::new(input.as_str(), right).into_node();
        maybe_bag_node(self.is_attached(), bag, node)
    }

    /// Creates new greater comparison operation.
    pub fn greater(&self, right: &str, bag: &mut Bag) -> (r: Node)
        requires
            self.within(old(bag)),
        ensures
            settled(
                self.attached(),
                old(bag),
                final(bag),
                r,
                ops::Greater::made(resolved(self.record(old(bag))), right@),
            ),
    {
        let input = self.select_output(bag);
        let node = ops::Greater::new(input.as_str(), right).into_node();
        maybe_bag_node(self.is_attached(), bag, node)
    }

    /// Creates new less comparison operation.
    pub fn less(&self, right: &str, bag: &mut Bag) -> (r: Node)
        requires
            self.within(old(bag)),
        ensures
            settled(
                self.attached(),
                old(bag),
                final(bag),
                r,
                ops::Less::made(resolved(self.record(old(bag))), right@),
            ),
    {
        let input = self.select_output(bag);
        let node = ops::Less::new(input.as_str(), right).into_node();
        maybe_bag_node(self.is_attached(), bag, node)
    }

    /// Creates new logical and operation.
    pub fn and(&self, right: &str, bag: &mut Bag) -> (r: Node)
        requires
            self.within(old(bag)),
        ensures
            settled(
                self.attached(),
                old(bag),
                final(bag),
                r,
                ops::And::made(resolved(self.record(old(bag))), right@),
            ),
    {
        let input = self.select_output(bag);
        let node = ops::And::new(input.as_str(), right).into_node();
        maybe_bag_node(self.is_attached(), bag, node)
    }

    /// Creates new logical or operation.
    pub fn or(&self, right: &str, bag: &mut Bag) -> (r: Node)
        requires
            self.within(old(bag)),
        ensures
            settled(
                self.attached(),
                old(bag),
                final(bag),
                r,
                ops::Or::made(resolved(self.record(old(bag))), right@),
            ),
    {
        let input = self.select_output(bag);
        let node = ops::Or::new(input.as_str(), right).into_node();
        maybe_bag_node(self.is_attached(), bag, node)
    }

    /// Creates new reduce sum operation.
    pub fn sum(&self, axes: Axes, keepdims: bool, bag: &mut Bag) -> (r: Node)
        requires
            self.within(old(bag)),
        ensures
            settled(
                self.attached(),
                old(bag),
                final(bag),
                r,
                ops::ReduceSum::made(resolved(self.record(old(bag))), axes.0@, keepdims),
            ),
    {
        let input = self.select_output(bag);
        let node = ops::ReduceSum::new(input.as_str(), axes, keepdims).into_node();
        maybe_bag_node(self.is_attached(), bag, node)
    }

    /// Creates new reduce max operation.
    pub fn max(&self, axes: Axes, keepdims: bool, bag: &mut Bag) -> (r: Node)
        requires
            self.within(old(bag)),
        ensures
            settled(
                self.attached(),
                old(bag),
                final(bag),
                r,
                ops::ReduceMax::made(resolved(self.record(old(bag))), axes.0@, keepdims),
            ),
    {
        let input = self.select_output(bag);
        let node = ops::ReduceMax::new(input.as_str(), axes, keepdims).into_node();
        maybe_bag_node(self.is_attached(), bag, node)
    }

    /// Creates new reduce mean operation.
    pub fn mean(&self, axes: Axes, keepdims: bool, bag: &mut Bag) -> (r: Node)
        requires
            self.within(old(bag)),
        ensures
            settled(
                self.attached(),
                old(bag),
                final(bag),
                r,
                ops::ReduceMean::made(resolved(self.record(old(bag))), axes.0@, keepdims),
            ),
    {
        let input = self.select_output(bag);
        let node = ops::ReduceMean::new(input.as_str(), axes, keepdims).into_node();
        maybe_bag_node(self.is_attached(), bag, node)
    }

    /// Creates new reduce min operation.
    pub fn min(&self, axes: Axes, keepdims: bool, bag: &mut Bag) -> (r: Node)
        requires
            self.within(old(bag)),
        ensures
            settled(
                self.attached(),
                old(bag),
                final(bag),
                r,
                ops::ReduceMin::made(resolved(self.record(old(bag))), axes.0@, keepdims),
            ),
    {
        let input = self.select_output(bag);
        let node = ops::ReduceMin::new(input.as_str(), axes, keepdims).into_node();
        maybe_bag_node(self.is_attached(), bag, node)
    }
}

/// Renaming the outputs of a node around its place keeps the length of the
/// list and the node at that place.
pub proof fn lemma_skip_kept(b: BagView, s: int, outputs: Seq<Seq<char>>, name: Seq<char>, upto: nat)
    requires
        0 <= s < b.nodes.len(),
    ensures
        outputs_renamed(b, Some(s), outputs, name, upto).nodes.len() == b.nodes.len(),
        outputs_renamed(b, Some(s), outputs, name, upto).nodes[s] == b.nodes[s],
    decreases upto,
{
    if upto > 0 {
        lemma_skip_kept(b, s, outputs, name, (upto - 1) as nat);
    }
}

impl Clone for Place {
    fn clone(&self) -> (r: Self)
        ensures
            match *self {
                Place::Held(p) => r matches Place::Held(q) && q@ == p@,
                Place::Listed(s) => r == Place::Listed(s),
            },
    {
        match self {
            Place::Held(p) => Place::Held(p.clone()),
            Place::Listed(s) => Place::Listed(*s),
        }
    }
}

impl Clone for Node {
    /// A second handle of a listed node reads and renames the same node; a
    /// node that holds its record is copied.
    fn clone(&self) -> (r: Self)
        ensures
            r.bagged == self.bagged,
            match self.place {
                Place::Held(p) => r.place matches Place::Held(q) && q@ == p@,
                Place::Listed(s) => r.place == Place::Listed(s),
            },
    {
        Node { place: self.place.clone(), bagged: self.bagged }
    }
}

impl From<NodeProto> for Node {
    fn from(inner: NodeProto) -> (r: Self) {
        Node::from_proto(inner)
    }
}

impl FromSpecImpl<NodeProto> for Node {
    open spec fn obeys_from_spec() -> bool {
        true
    }

    open spec fn from_spec(inner: NodeProto) -> Node {
        Node { place: Place::Held(inner), bagged: false }
    }
}

/// The axes of a reduction. One axis or a list of axes is accepted alike:
/// both become a list.
#[derive(Clone, Debug, PartialEq)]
pub struct Axes(pub Vec<i64>);

impl From<i64> for Axes {
    fn from(axes: i64) -> (r: Self)
        ensures
            r.0@ == seq![axes],
    {
        Axes::single(axes)
    }
}

impl FromSpecImpl<i64> for Axes {
    open spec fn obeys_from_spec() -> bool {
        false
    }

    open spec fn from_spec(axes: i64) -> Axes {
        arbitrary()
    }
}

impl From<Vec<i64>> for Axes {
    fn from(axes: Vec<i64>) -> (r: Self) {
        Axes(axes)
    }
}

impl FromSpecImpl<Vec<i64>> for Axes {
    open spec fn obeys_from_spec() -> bool {
        true
    }

    open spec fn from_spec(axes: Vec<i64>) -> Axes {
        Axes(axes)
    }
}

impl Axes {
    /// The list that holds one axis.
    pub fn single(axis: i64) -> (r: Self)
        ensures
            r.0@ == seq![axis],
    {
        let mut list: Vec<i64> = Vec::new();
        list.push(axis);
        assert(list@ =~= seq![axis]);
        Axes(list)
    }
}

/// Renaming the outputs of a node leaves alone what none of them names:
/// the lists keep their lengths, and an identifier that is not among the
/// outputs stays where a node consumes it.
pub proof fn lemma_outputs_renamed(
    b: BagView,
    skip: Option<int>,
    outputs: Seq<Seq<char>>,
    name: Seq<char>,
    upto: nat,
    m: int,
    j: int,
)
    requires
        upto <= outputs.len(),
        0 <= m < b.nodes.len(),
        0 <= j < b.nodes[m].input.len(),
        !outputs.contains(b.nodes[m].input[j]),
    ensures
        outputs_renamed(b, skip, outputs, name, upto).nodes.len() == b.nodes.len(),
        outputs_renamed(b, skip, outputs, name, upto).inputs.len() == b.inputs.len(),
        outputs_renamed(b, skip, outputs, name, upto).outputs.len() == b.outputs.len(),
        j < outputs_renamed(b, skip, outputs, name, upto).nodes[m].input.len(),
        outputs_renamed(b, skip, outputs, name, upto).nodes[m].input[j] == b.nodes[m].input[j],
    decreases upto,
{
    if upto > 0 {
        lemma_outputs_renamed(b, skip, outputs, name, (upto - 1) as nat, m, j);
        assert(outputs.contains(outputs[upto - 1]));
    }
}

/// Rename propagation. Let a node that belongs to a graph bear the name
/// `id`, and let the node at `m` consume `id`. After the node was renamed
/// to `name`, the node at `m` consumes `name` in the same place, and no
/// other node, input or output of the bag holds `id` any more.
///
/// This is so where `id` is none of the renamed node's outputs and differs
/// from `name`.
pub proof fn lemma_rename_propagates(node: Node, bag: Bag, name: Seq<char>, m: int, j: int)
    requires
        node.within(&bag),
        node.attached(),
        0 <= m < bag.nodes.len(),
        node.skip() != Some(m),
        0 <= j < bag@.nodes[m].input.len(),
        bag@.nodes[m].input[j] == node.record(&bag).name,
        !node.record(&bag).output.contains(node.record(&bag).name),
        node.record(&bag).name != name,
    ensures
        node.renamed_in(&bag, name).nodes.len() == bag.nodes.len(),
        j < node.renamed_in(&bag, name).nodes[m].input.len(),
        node.renamed_in(&bag, name).nodes[m].input[j] == name,
        forall|k: int|
            0 <= k < bag.nodes.len() && node.skip() != Some(k) ==> !node_mentions(
                #[trigger] node.renamed_in(&bag, name).nodes[k],
                node.record(&bag).name,
            ),
        forall|k: int|
            0 <= k < node.renamed_in(&bag, name).inputs.len() ==> (#[trigger] node.renamed_in(
                &bag,
                name,
            ).inputs[k]).name != node.record(&bag).name,
        forall|k: int|
            0 <= k < node.renamed_in(&bag, name).outputs.len() ==> (#[trigger] node.renamed_in(
                &bag,
                name,
            ).outputs[k]).name != node.record(&bag).name,
{
    let old = node.record(&bag);
    let id = old.name;
    let skip = node.skip();
    let mid = outputs_renamed(bag@, skip, old.output, name, old.output.len());
    let carried = propagated(bag@, skip, old, name);
    let after = node.renamed_in(&bag, name);
    lemma_outputs_renamed(bag@, skip, old.output, name, old.output.len(), m, j);
    assert(mid.nodes[m].input[j] == id);
    assert(carried.nodes[m] == renamed_node(mid.nodes[m], id, name));
    assert(after.nodes[m] == carried.nodes[m]);
    assert forall|k: int| 0 <= k < bag.nodes.len() && skip != Some(k) implies !node_mentions(
        #[trigger] after.nodes[k],
        id,
    ) by {
        let was = mid.nodes[k];
        let now = after.nodes[k];
        assert(now == renamed_node(was, id, name));
        if now.input.contains(id) {
            let i = choose|i: int| 0 <= i < now.input.len() && now.input[i] == id;
            assert(now.input[i] == swapped(was.input[i], id, name));
        }
        if now.output.contains(id) {
            let i = choose|i: int| 0 <= i < now.output.len() && now.output[i] == id;
            assert(now.output[i] == swapped(was.output[i], id, name));
        }
    }
}

/// After a node was renamed, the node itself holds its old name no more,
/// provided that it did not consume it and that none of its new outputs
/// spells it.
pub proof fn lemma_renamed_drops_name(n: NodeView, name: Seq<char>)
    requires
        n.name != name,
        !n.input.contains(n.name),
        forall|k: int| 0 <= k < n.output.len() ==> name + decimal(k) != n.name,
    ensures
        !node_mentions(retitled(n, name), n.name),
{
    let now = retitled(n, name);
    if now.output.contains(n.name) {
        let k = choose|k: int| 0 <= k < now.output.len() && now.output[k] == n.name;
        assert(now.output[k] == name + decimal(k));
    }
}

} // verus!
