//! Sqrt operation.

use vstd::prelude::*;

use crate::builder::node::operation;
use crate::nodes::ops::{free, unary};
use crate::nodes::Node;
use crate::proto::NodeView;

verus! {

/// Sqrt node.
#[derive(Clone, Debug)]
pub struct Sqrt {
    pub inner: Node,
}

impl Sqrt {
    /// The record of the Sqrt node over one operand.
    pub open spec fn made(input: Seq<char>) -> NodeView {
        operation("Sqrt"@, seq![input], Seq::empty())
    }

    /// Creates new Sqrt operation.
    pub fn new(input: &str) -> (r: Self)
        ensures
            free(r.inner, Self::made(input@)),
    {
        Sqrt { inner: unary("Sqrt", input) }
    }

    /// The node of the operation.
    pub fn into_node(self) -> (r: Node)
        ensures
            r == self.inner,
    {
        self.inner
    }

    /// The node of the operation, borrowed.
    pub fn as_node(&self) -> (r: &Node)
        ensures
            *r == self.inner,
    {
        &self.inner
    }
}

} // verus!
