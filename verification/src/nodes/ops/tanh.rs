//! Tanh operation.

use vstd::prelude::*;

use crate::builder::node::operation;
use crate::nodes::ops::{free, unary};
use crate::nodes::Node;
use crate::proto::NodeView;

verus! {

/// Tanh node.
#[derive(Clone, Debug)]
pub struct Tanh {
    pub inner: Node,
}

impl Tanh {
    /// The record of the Tanh node over one operand.
    pub open spec fn made(input: Seq<char>) -> NodeView {
        operation("Tanh"@, seq![input], Seq::empty())
    }

    /// Creates new Tanh operation.
    pub fn new(input: &str) -> (r: Self)
        ensures
            free(r.inner, Self::made(input@)),
    {
        Tanh { inner: unary("Tanh", input) }
    }

    /// The node of the operation.
    pub fn into_node(self) -> (r: Node)
        ensures
            r == self.inner,
    {
        self.inner
    }

    /// The node of the operation, borrowed.
    pub fn as_node(&self) -> (r: &Node)
        ensures
            *r == self.inner,
    {
        &self.inner
    }
}

} // verus!
