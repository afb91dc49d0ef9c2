//! The operations: one constructor for each kind of node.
//!
//! A constructor makes a node that belongs to no graph. Its name and its
//! single output are derived from the operation, the operands and the
//! attributes.

pub mod abs;
pub mod add;
pub mod and;
pub mod concat;
pub mod constant;
pub mod div;
pub mod equal;
pub mod greater;
pub mod less;
pub mod mul;
pub mod neg;
pub mod not;
pub mod or;
pub mod pow;
pub mod reduce_max;
pub mod reduce_mean;
pub mod reduce_min;
pub mod reduce_sum;
pub mod relu;
pub mod size;
pub mod sqrt;
pub mod sub;
pub mod tanh;

pub use self::concat::concat;
pub use self::abs::Abs;
pub use self::add::Add;
pub use self::and::And;
pub use self::concat::Concat;
pub use self::constant::Constant;
pub use self::div::Div;
pub use self::equal::Equal;
pub use self::greater::Greater;
pub use self::less::Less;
pub use self::mul::Mul;
pub use self::neg::Neg;
pub use self::not::Not;
pub use self::or::Or;
pub use self::pow::Pow;
pub use self::reduce_max::ReduceMax;
pub use self::reduce_mean::ReduceMean;
pub use self::reduce_min::ReduceMin;
pub use self::reduce_sum::ReduceSum;
pub use self::relu::Relu;
pub use self::size::Size;
pub use self::sqrt::Sqrt;
pub use self::sub::Sub;
pub use self::tanh::Tanh;

use vstd::prelude::*;

use crate::attrs::{Attribute, AttributeValue};
use crate::builder;
use crate::builder::node::{operation, pairs};
use crate::nodes::{Axes, Node, Place};
use crate::proto::NodeView;
use crate::text::texts;

verus! {

/// States that the node belongs to no graph and holds the record `rec`.
pub open spec fn free(n: Node, rec: NodeView) -> bool {
    &&& n.place matches Place::Held(p) && p@ == rec
    &&& !n.bagged
}

/// The record of a reduction of one operand: the axes as a list of
/// integers, then whether reduced dimensions are kept, as `0` or `1`.
pub open spec fn reduced(op: Seq<char>, input: Seq<char>, axes: Seq<i64>, keepdims: bool) -> NodeView {
    operation(
        op,
        seq![input],
        seq![
            ("axes"@, AttributeValue::Ints(axes)),
            ("keepdims"@, AttributeValue::Int(if keepdims { 1i64 } else { 0i64 })),
        ],
    )
}

/// Makes the node of an operation over one operand.
pub fn unary(op: &str, input: &str) -> (r: Node)
    ensures
        free(r, operation(op@, seq![input@], Seq::empty())),
{
    let node = builder::Node::new(op).input(input);
    proof {
        assert(texts(node.inputs@) =~= seq![input@]);
        assert(texts(node.outputs@) =~= Seq::<Seq<char>>::empty());
        assert(pairs(node.attributes@) =~= Seq::<(Seq<char>, AttributeValue)>::empty());
    }
    Node::from_proto(node.into_proto())
}

/// Makes the node of an operation over two operands.
pub fn binary(op: &str, lhs: &str, rhs: &str) -> (r: Node)
    ensures
        free(r, operation(op@, seq![lhs@, rhs@], Seq::empty())),
{
    let node = builder::Node::new(op).input(lhs).input(rhs);
    proof {
        assert(texts(node.inputs@) =~= seq![lhs@, rhs@]);
        assert(texts(node.outputs@) =~= Seq::<Seq<char>>::empty());
        assert(pairs(node.attributes@) =~= Seq::<(Seq<char>, AttributeValue)>::empty());
    }
    Node::from_proto(node.into_proto())
}

/// Makes the node of a reduction of one operand along the given axes.
pub fn reduction(op: &str, input: &str, axes: Axes, keepdims: bool) -> (r: Node)
    ensures
        free(r, reduced(op@, input@, axes.0@, keepdims)),
{
    let node = builder::Node::new(op).input(input).attribute(
        "axes",
        Attribute::from(axes),
    ).attribute("keepdims", Attribute::from(keepdims));
    proof {
        assert(texts(node.inputs@) =~= seq![input@]);
        assert(texts(node.outputs@) =~= Seq::<Seq<char>>::empty());
        assert(pairs(node.attributes@) =~= seq![
            ("axes"@, AttributeValue::Ints(axes.0@)),
            ("keepdims"@, AttributeValue::Int(if keepdims { 1i64 } else { 0i64 })),
        ]);
    }
    Node::from_proto(node.into_proto())
}

} // verus!
