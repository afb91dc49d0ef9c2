//! Abs operation.

use vstd::prelude::*;

use crate::builder::node::operation;
use crate::nodes::ops::{free, unary};
use crate::nodes::Node;
use crate::proto::NodeView;

verus! {

/// Abs node.
#[derive(Clone, Debug)]
pub struct Abs {
    pub inner: Node,
}

impl Abs {
    /// The record of the Abs node over one operand.
    pub open spec fn made(input: Seq<char>) -> NodeView {
        operation("Abs"@, seq![input], Seq::empty())
    }

    /// Creates new Abs operation.
    pub fn new(input: &str) -> (r: Self)
        ensures
            free(r.inner, Self::made(input@)),
    {
        Abs { inner: unary("Abs", input) }
    }

    /// The node of the operation.
    pub fn into_node(self) -> (r: Node)
        ensures
            r == self.inner,
    {
        self.inner
    }

    /// The node of the operation, borrowed.
    pub fn as_node(&self) -> (r: &Node)
        ensures
            *r == self.inner,
    {
        &self.inner
    }
}

} // verus!
