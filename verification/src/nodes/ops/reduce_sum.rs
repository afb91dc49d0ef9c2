//! Reduce sum operation.

use vstd::prelude::*;

use crate::nodes::ops::{free, reduced, reduction};
use crate::nodes::{Axes, Node};
use crate::proto::NodeView;

verus! {

/// Reduce sum node.
#[derive(Clone, Debug)]
pub struct ReduceSum {
    pub inner: Node,
}

impl ReduceSum {
    /// The record of a reduce sum of one operand along the given axes.
    pub open spec fn made(input: Seq<char>, axes: Seq<i64>, keepdims: bool) -> NodeView {
        reduced("ReduceSum"@, input, axes, keepdims)
    }

    /// Creates new reduce sum operation.
    pub fn new(input: &str, axes: Axes, keepdims: bool) -> (r: Self)
        ensures
            free(r.inner, Self::made(input@, axes.0@, keepdims)),
    {
        ReduceSum { inner: reduction("ReduceSum", input, axes, keepdims) }
    }

    /// The node of the operation.
    pub fn into_node(self) -> (r: Node)
        ensures
            r == self.inner,
    {
        self.inner
    }

    /// The node of the operation, borrowed.
    pub fn as_node(&self) -> (r: &Node)
        ensures
            *r == self.inner,
    {
        &self.inner
    }
}

} // verus!
