//! Constant operation.

use vstd::prelude::*;

use crate::attrs::{Attribute, AttributeValue};
use crate::builder;
use crate::builder::node::{assembled, pairs};
use crate::nodes::ops::free;
use crate::nodes::Node;
use crate::proto::{NodeView, TensorProto, TensorView};
use crate::text::texts;

verus! {

/// Constant node.
#[derive(Clone, Debug)]
pub struct Constant {
    pub inner: Node,
}

impl Constant {
    /// The record of the constant of the given name: it consumes nothing
    /// and carries the tensor as its attribute `value`.
    pub open spec fn made(name: Seq<char>, value: TensorView) -> NodeView {
        assembled(
            Some(name),
            "Constant"@,
            Seq::empty(),
            Seq::empty(),
            seq![("value"@, AttributeValue::Tensor(value))],
            Seq::empty(),
            Seq::empty(),
        )
    }

    /// Creates new Constant operation.
    pub fn new(name: &str, value: TensorProto) -> (r: Self)
        ensures
            free(r.inner, Self::made(name@, value@)),
    {
        let node = builder::Node::new("Constant").name(name).attribute(
            "value",
            Attribute::Tensor(value),
        );
        proof {
            assert(texts(node.inputs@) =~= Seq::<Seq<char>>::empty());
            assert(texts(node.outputs@) =~= Seq::<Seq<char>>::empty());
            assert(pairs(node.attributes@) =~= seq![("value"@, AttributeValue::Tensor(value@))]);
        }
        Constant { inner: Node::from_proto(node.into_proto()) }
    }

    /// The node of the operation.
    pub fn into_node(self) -> (r: Node)
        ensures
            r == self.inner,
    {
        self.inner
    }

    /// The node of the operation, borrowed.
    pub fn as_node(&self) -> (r: &Node)
        ensures
            *r == self.inner,
    {
        &self.inner
    }
}

} // verus!
