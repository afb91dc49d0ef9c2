//! Reduce min operation.

use vstd::prelude::*;

use crate::nodes::ops::{free, reduced, reduction};
use crate::nodes::{Axes, Node};
use crate::proto::NodeView;

verus! {

/// Reduce min node.
#[derive(Clone, Debug)]
pub struct ReduceMin {
    pub inner: Node,
}

impl ReduceMin {
    /// The record of a reduce min of one operand along the given axes.
    pub open spec fn made(input: Seq<char>, axes: Seq<i64>, keepdims: bool) -> NodeView {
        reduced("ReduceMin"@, input, axes, keepdims)
    }

    /// Creates new reduce min operation.
    pub fn new(input: &str, axes: Axes, keepdims: bool) -> (r: Self)
        ensures
            free(r.inner, Self::made(input@, axes.0@, keepdims)),
    {
        ReduceMin { inner: reduction("ReduceMin", input, axes, keepdims) }
    }

    /// The node of the operation.
    pub fn into_node(self) -> (r: Node)
        ensures
            r == self.inner,
    {
        self.inner
    }

    /// The node of the operation, borrowed.
    pub fn as_node(&self) -> (r: &Node)
        ensures
            *r == self.inner,
    {
        &self.inner
    }
}

} // verus!
