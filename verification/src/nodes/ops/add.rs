//! Add operation.

use vstd::prelude::*;

use crate::builder::node::operation;
use crate::nodes::ops::{binary, free};
use crate::nodes::Node;
use crate::proto::NodeView;

verus! {

/// Add node.
#[derive(Clone, Debug)]
pub struct Add {
    pub inner: Node,
}

impl Add {
    /// The record of the Add node over two operands.
    pub open spec fn made(lhs: Seq<char>, rhs: Seq<char>) -> NodeView {
        operation("Add"@, seq![lhs, rhs], Seq::empty())
    }

    /// Creates new Add operation.
    pub fn new(lhs: &str, rhs: &str) -> (r: Self)
        ensures
            free(r.inner, Self::made(lhs@, rhs@)),
    {
        Add { inner: binary("Add", lhs, rhs) }
    }

    /// The node of the operation.
    pub fn into_node(self) -> (r: Node)
        ensures
            r == self.inner,
    {
        self.inner
    }

    /// The node of the operation, borrowed.
    pub fn as_node(&self) -> (r: &Node)
        ensures
            *r == self.inner,
    {
        &self.inner
    }
}

} // verus!
