//! Not operation.

use vstd::prelude::*;

use crate::builder::node::operation;
use crate::nodes::ops::{free, unary};
use crate::nodes::Node;
use crate::proto::NodeView;

verus! {

/// Not node.
#[derive(Clone, Debug)]
pub struct Not {
    pub inner: Node,
}

impl Not {
    /// The record of the Not node over one operand.
    pub open spec fn made(input: Seq<char>) -> NodeView {
        operation("Not"@, seq![input], Seq::empty())
    }

    /// Creates new Not operation.
    pub fn new(input: &str) -> (r: Self)
        ensures
            free(r.inner, Self::made(input@)),
    {
        Not { inner: unary("Not", input) }
    }

    /// The node of the operation.
    pub fn into_node(self) -> (r: Node)
        ensures
            r == self.inner,
    {
        self.inner
    }

    /// The node of the operation, borrowed.
    pub fn as_node(&self) -> (r: &Node)
        ensures
            *r == self.inner,
    {
        &self.inner
    }
}

} // verus!
