//! Concat operation.

use vstd::prelude::*;

use crate::attrs::{Attribute, AttributeValue};
use crate::builder;
use crate::builder::node::{operation, pairs};
use crate::nodes::ops::free;
use crate::nodes::Node;
use crate::proto::NodeView;
use crate::text::texts;

verus! {

/// Concat node.
#[derive(Clone, Debug)]
pub struct Concat {
    pub inner: Node,
}

impl Concat {
    /// The record of the concatenation of the operands, in their order,
    /// along `axis`.
    pub open spec fn made(axis: i64, inputs: Seq<Seq<char>>) -> NodeView {
        operation("Concat"@, inputs, seq![("axis"@, AttributeValue::Int(axis))])
    }

    /// Creates new Concat operation.
    pub fn new(axis: i64, inputs: Vec<String>) -> (r: Self)
        ensures
            free(r.inner, Self::made(axis, texts(inputs@))),
    {
        let node = builder::Node::new("Concat").inputs(inputs).attribute(
            "axis",
            Attribute::Int(axis),
        );
        proof {
            assert(texts(node.inputs@) =~= texts(inputs@));
            assert(texts(node.outputs@) =~= Seq::<Seq<char>>::empty());
            assert(pairs(node.attributes@) =~= seq![("axis"@, AttributeValue::Int(axis))]);
        }
        Concat { inner: Node::from_proto(node.into_proto()) }
    }

    /// The node of the operation.
    pub fn into_node(self) -> (r: Node)
        ensures
            r == self.inner,
    {
        self.inner
    }

    /// The node of the operation, borrowed.
    pub fn as_node(&self) -> (r: &Node)
        ensures
            *r == self.inner,
    {
        &self.inner
    }
}

/// Creates new Concat operation.
pub fn concat(axis: i64, inputs: Vec<String>) -> (r: Concat)
    ensures
        free(r.inner, Concat::made(axis, texts(inputs@))),
{
    Concat::new(axis, inputs)
}

} // verus!
