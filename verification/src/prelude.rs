//! The names that most callers need.

pub use crate::builder;
pub use crate::nodes::ops::{
    concat, Abs, Add, And, Concat, Constant, Div, Equal, Greater, Less, Mul, Neg, Not, Or, Pow,
    ReduceMax, ReduceMean, ReduceMin, ReduceSum, Relu, Size, Sqrt, Sub, Tanh,
};
pub use crate::nodes::{Axes, Node, Place};
