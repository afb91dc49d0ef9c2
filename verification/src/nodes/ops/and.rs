//! And operation.

use vstd::prelude::*;

use crate::builder::node::operation;
use crate::nodes::ops::{binary, free};
use crate::nodes::Node;
use crate::proto::NodeView;

verus! {

/// And node.
#[derive(Clone, Debug)]
pub struct And {
    pub inner: Node,
}

impl And {
    /// The record of the And node over two operands.
    pub open spec fn made(lhs: Seq<char>, rhs: Seq<char>) -> NodeView {
        operation("And"@, seq![lhs, rhs], Seq::empty())
    }

    /// Creates new And operation.
    pub fn new(lhs: &str, rhs: &str) -> (r: Self)
        ensures
            free(r.inner, Self::made(lhs@, rhs@)),
    {
        And { inner: binary("And", lhs, rhs) }
    }

    /// The node of the operation.
    pub fn into_node(self) -> (r: Node)
        ensures
            r == self.inner,
    {
        self.inner
    }

    /// The node of the operation, borrowed.
    pub fn as_node(&self) -> (r: &Node)
        ensures
            *r == self.inner,
    {
        &self.inner
    }
}

} // verus!
