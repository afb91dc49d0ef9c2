//! The builders: the bag and the fluent builders of graphs, models, nodes
//! and values.

pub mod bag;
pub mod dedup;
pub mod graph;
pub mod model;
pub mod node;
pub mod order;
pub mod toposort;
pub mod value;

pub use self::bag::Bag;
pub use self::bag::BagView;
pub use self::bag::Marker;
pub use self::graph::Graph;
pub use self::model::Model;
pub use self::node::Node;
pub use self::order::BuildError;
pub use self::value::Value;
