//! Relu operation.

use vstd::prelude::*;

use crate::builder::node::operation;
use crate::nodes::ops::{free, unary};
use crate::nodes::Node;
use crate::proto::NodeView;

verus! {

/// Relu node.
#[derive(Clone, Debug)]
pub struct Relu {
    pub inner: Node,
}

impl Relu {
    /// The record of the Relu node over one operand.
    pub open spec fn made(input: Seq<char>) -> NodeView {
        operation("Relu"@, seq![input], Seq::empty())
    }

    /// Creates new Relu operation.
    pub fn new(input: &str) -> (r: Self)
        ensures
            free(r.inner, Self::made(input@)),
    {
        Relu { inner: unary("Relu", input) }
    }

    /// The node of the operation.
    pub fn into_node(self) -> (r: Node)
        ensures
            r == self.inner,
    {
        self.inner
    }

    /// The node of the operation, borrowed.
    pub fn as_node(&self) -> (r: &Node)
        ensures
            *r == self.inner,
    {
        &self.inner
    }
}

} // verus!
