//! Builders for computation-graph model descriptions.
//!
//! A graph is assembled from named nodes whose edges are identifiers: a node
//! lists the names it consumes and the names it produces. Everything that is
//! built on the way is collected in a [`builder::Bag`], an arena that the
//! graph builder owns and that every node operation receives explicitly.
//! Building the graph keeps of every name the first element, arranges the
//! nodes in the order of their dependencies and refuses a graph whose
//! dependencies run in a circle.
//!
//! Construction is single-threaded: a bag has one writer at a time and is
//! never shared between threads.

pub mod attrs;
pub mod builder;
pub mod nodes;
pub mod prelude;
pub mod proto;
pub mod seqs;
pub mod text;
