//! Value info builder.

use vstd::prelude::*;
use vstd::std_specs::convert::FromSpecImpl;

use crate::builder::bag::{Bag, BagView, Marker};
use crate::builder::node::{assembled, pairs, text_or_empty};
use crate::builder::Node;
use crate::nodes;
use crate::nodes::Place;
use crate::proto::{views, DataType, Dimension, NodeView, TypeView, ValueInfoProto, ValueInfoView, TypeProto};
use crate::text::texts;

verus! {

impl From<i64> for Dimension {
    fn from(v: i64) -> (r: Self) {
        Dimension::Value(v)
    }
}

impl FromSpecImpl<i64> for Dimension {
    open spec fn obeys_from_spec() -> bool {
        true
    }

    open spec fn from_spec(v: i64) -> Dimension {
        Dimension::Value(v)
    }
}

impl From<String> for Dimension {
    fn from(v: String) -> (r: Self) {
        Dimension::Param(v)
    }
}

impl FromSpecImpl<String> for Dimension {
    open spec fn obeys_from_spec() -> bool {
        true
    }

    open spec fn from_spec(v: String) -> Dimension {
        Dimension::Param(v)
    }
}

/// Value info builder.
#[derive(Clone, Debug)]
pub struct Value {
    pub name: String,
    pub elem_type: DataType,
    pub shape: Vec<Dimension>,
    pub doc_string: Option<String>,
    /// The list of the graph's bag that the value belongs to, for a builder
    /// that a graph handed out.
    pub marker: Option<Marker>,
}

/// The record of the stand-in of a value: a node of that name without
/// operation.
pub open spec fn placeholder(name: Seq<char>) -> NodeView {
    assembled(
        Some(name),
        Seq::empty(),
        Seq::empty(),
        Seq::empty(),
        Seq::empty(),
        Seq::empty(),
        Seq::empty(),
    )
}

impl Value {
    /// The record that `build` makes of the builder: a tensor of the
    /// element type and shape.
    pub open spec fn built(&self) -> ValueInfoView {
        ValueInfoView {
            name: self.name@,
            typ: Some(
                TypeView {
                    denotation: Seq::empty(),
                    elem_type: self.elem_type.spec_code(),
                    shape: Some(views(self.shape@)),
                },
            ),
            doc_string: text_or_empty(self.doc_string),
        }
    }

    /// Creates a new builder.
    pub fn new(name: &str) -> (r: Self)
        ensures
            r.name@ == name@,
            r.elem_type == DataType::Undefined,
            r.shape@.len() == 0,
            r.doc_string is None,
            r.marker is None,
    {
        Value {
            name: name.to_owned(),
            elem_type: DataType::Undefined,
            shape: Vec::new(),
            doc_string: None,
            marker: None,
        }
    }

    /// Sets value name.
    pub fn name(self, name: &str) -> (r: Self)
        ensures
            r.name@ == name@,
            r == (Value { name: r.name, ..self }),
    {
        let mut value = self;
        value.name = name.to_owned();
        value
    }

    /// Sets value element type.
    pub fn typed(self, elem_type: DataType) -> (r: Self)
        ensures
            r == (Value { elem_type, ..self }),
    {
        let mut value = self;
        value.elem_type = elem_type;
        value
    }

    /// Sets value shape.
    pub fn shape(self, shape: Vec<Dimension>) -> (r: Self)
        ensures
            r == (Value { shape, ..self }),
    {
        let mut value = self;
        value.shape = shape;
        value
    }

    /// Inserts value dimension.
    pub fn dim(self, dim: Dimension) -> (r: Self)
        ensures
            r.shape@ == self.shape@.push(dim),
            r == (Value { shape: r.shape, ..self }),
    {
        let mut value = self;
        value.shape.push(dim);
        value
    }

    /// Sets value documentation.
    pub fn doc_string(self, doc_string: &str) -> (r: Self)
        ensures
            r.doc_string matches Some(d) && d@ == doc_string@,
            r == (Value { doc_string: r.doc_string, ..self }),
    {
        let mut value = self;
        value.doc_string = Some(doc_string.to_owned());
        value
    }

    /// Registers the value in the bag, as an input or an output as the
    /// builder says, and creates the node that stands for it in
    /// expressions. The node belongs to the graph, yet the bag does not
    /// list it. Needs a builder that a graph handed out.
    pub fn node(self, bag: &mut Bag) -> (r: nodes::Node)
        requires
            self.marker is Some,
        ensures
            r.place matches Place::Held(p) && p@ == placeholder(self.name@),
            r.bagged,
            final(bag)@ == match self.marker->0 {
                Marker::Input => BagView { inputs: old(bag)@.inputs.push(self.built()), ..old(bag)@ },
                Marker::Output => BagView {
                    outputs: old(bag)@.outputs.push(self.built()),
                    ..old(bag)@
                },
            },
    {
        let stand_in = Node::named(self.name.as_str());
        proof {
            assert(texts(stand_in.inputs@) =~= Seq::<Seq<char>>::empty());
            assert(texts(stand_in.outputs@) =~= Seq::<Seq<char>>::empty());
            assert(pairs(stand_in.attributes@) =~= Seq::empty());
        }
        let proto = stand_in.into_proto();
        let marker = match self.marker {
            Some(m) => m,
            None => Marker::Input,
        };
        let value = self.build();
        bag.value(value, marker);
        nodes::Node { place: Place::Held(proto), bagged: true }
    }

    /// Builds the value info.
    pub fn build(self) -> (r: ValueInfoProto)
        ensures
            r@ == self.built(),
    {
        ValueInfoProto {
            name: self.name,
            typ: Some(
                TypeProto {
                    denotation: String::new(),
                    elem_type: self.elem_type.code(),
                    shape: Some(self.shape),
                },
            ),
            doc_string: match self.doc_string {
                Some(d) => d,
                None => String::new(),
            },
        }
    }
}

impl From<Value> for ValueInfoProto {
    fn from(value: Value) -> (r: Self)
        ensures
            r@ == value.built(),
    {
        value.build()
    }
}

impl FromSpecImpl<Value> for ValueInfoProto {
    open spec fn obeys_from_spec() -> bool {
        false
    }

    open spec fn from_spec(value: Value) -> ValueInfoProto {
        arbitrary()
    }
}

impl Default for Value {
    fn default() -> (r: Self)
        ensures
            r.name@.len() == 0,
            r.elem_type == DataType::Undefined,
            r.shape@.len() == 0,
            r.doc_string is None,
            r.marker is None,
    {
        Value {
            name: String::new(),
            elem_type: DataType::Undefined,
            shape: Vec::new(),
            doc_string: None,
            marker: None,
        }
    }
}

} // verus!
