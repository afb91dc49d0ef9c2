//! Size operation.

use vstd::prelude::*;

use crate::builder::node::operation;
use crate::nodes::ops::{free, unary};
use crate::nodes::Node;
use crate::proto::NodeView;

verus! {

/// Size node.
#[derive(Clone, Debug)]
pub struct Size {
    pub inner: Node,
}

impl Size {
    /// The record of the Size node over one operand.
    pub open spec fn made(input: Seq<char>) -> NodeView {
        operation("Size"@, seq![input], Seq::empty())
    }

    /// Creates new Size operation.
    pub fn new(input: &str) -> (r: Self)
        ensures
            free(r.inner, Self::made(input@)),
    {
        Size { inner: unary("Size", input) }
    }

    /// The node of the operation.
    pub fn into_node(self) -> (r: Node)
        ensures
            r == self.inner,
    {
        self.inner
    }

    /// The node of the operation, borrowed.
    pub fn as_node(&self) -> (r: &Node)
        ensures
            *r == self.inner,
    {
        &self.inner
    }
}

} // verus!
