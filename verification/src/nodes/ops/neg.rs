//! Neg operation.

use vstd::prelude::*;

use crate::builder::node::operation;
use crate::nodes::ops::{free, unary};
use crate::nodes::Node;
use crate::proto::NodeView;

verus! {

/// Neg node.
#[derive(Clone, Debug)]
pub struct Neg {
    pub inner: Node,
}

impl Neg {
    /// The record of the Neg node over one operand.
    pub open spec fn made(input: Seq<char>) -> NodeView {
        operation("Neg"@, seq![input], Seq::empty())
    }

    /// Creates new Neg operation.
    pub fn new(input: &str) -> (r: Self)
        ensures
            free(r.inner, Self::made(input@)),
    {
        Neg { inner: unary("Neg", input) }
    }

    /// The node of the operation.
    pub fn into_node(self) -> (r: Node)
        ensures
            r == self.inner,
    {
        self.inner
    }

    /// The node of the operation, borrowed.
    pub fn as_node(&self) -> (r: &Node)
        ensures
            *r == self.inner,
    {
        &self.inner
    }
}

} // verus!
