//! Node builder.

use vstd::prelude::*;

use crate::attrs::{make_attribute, made_attribute, rendered, Attribute, AttributeValue};
use crate::builder::bag::Bag;
use crate::nodes;
use crate::nodes::settled;
use crate::proto::{views, AttributeProto, AttributeView, NodeProto, NodeView};
use crate::text::{join, joined, texts};

verus! {

/// The names and values of a list of attributes.
pub open spec fn pairs(attrs: Seq<(String, Attribute)>) -> Seq<(Seq<char>, AttributeValue)> {
    Seq::new(attrs.len(), |k: int| (attrs[k].0@, attrs[k].1@))
}

/// How each attribute reads inside a derived name: its name, an underscore
/// and its rendered value.
pub open spec fn labels(attrs: Seq<(Seq<char>, AttributeValue)>) -> Seq<Seq<char>> {
    Seq::new(attrs.len(), |k: int| attrs[k].0 + "_"@ + rendered(attrs[k].1))
}

/// The records of a list of attributes.
pub open spec fn records(attrs: Seq<(Seq<char>, AttributeValue)>) -> Seq<AttributeView> {
    Seq::new(attrs.len(), |k: int| made_attribute(attrs[k].0, attrs[k].1))
}

/// The name of a node that was given none. It is a function of the
/// operation, the consumed names and the attributes alone, so that the same
/// expression is named the same wherever it is built. With two operands the
/// operation stands between them; otherwise the parts stand between the
/// letters `S` and `E`.
pub open spec fn default_name(
    op: Seq<char>,
    inputs: Seq<Seq<char>>,
    attrs: Seq<(Seq<char>, AttributeValue)>,
) -> Seq<char> {
    let tail = joined(labels(attrs), "_"@);
    if inputs.len() == 2 {
        inputs[0] + "_"@ + op + "_"@ + inputs[1] + "_"@ + tail
    } else {
        "S"@ + op + "_"@ + joined(inputs, "_"@) + "_"@ + op + "_"@ + tail + "E"@
    }
}

/// The one output of a node that declares none: its name followed by `O`.
pub open spec fn default_output(name: Seq<char>) -> Seq<char> {
    name + "O"@
}

/// The text of an optional string, empty where there is none.
pub open spec fn text_or_empty(s: Option<String>) -> Seq<char> {
    match s {
        Some(t) => t@,
        None => Seq::empty(),
    }
}

/// The record of a node made of the given parts: the given name or else the
/// derived one, the given outputs or else the one derived from the name.
pub open spec fn assembled(
    name: Option<Seq<char>>,
    op: Seq<char>,
    inputs: Seq<Seq<char>>,
    outputs: Seq<Seq<char>>,
    attrs: Seq<(Seq<char>, AttributeValue)>,
    domain: Seq<char>,
    doc_string: Seq<char>,
) -> NodeView {
    let name = match name {
        Some(n) => n,
        None => default_name(op, inputs, attrs),
    };
    NodeView {
        name,
        domain,
        op_type: op,
        doc_string,
        input: inputs,
        output: if outputs.len() > 0 {
            outputs
        } else {
            seq![default_output(name)]
        },
        attribute: records(attrs),
    }
}

/// The record of an operation that was given nothing but what it consumes
/// and its attributes.
pub open spec fn operation(
    op: Seq<char>,
    inputs: Seq<Seq<char>>,
    attrs: Seq<(Seq<char>, AttributeValue)>,
) -> NodeView {
    assembled(None, op, inputs, Seq::empty(), attrs, Seq::empty(), Seq::empty())
}

/// Node builder.
#[derive(Clone, Debug)]
pub struct Node {
    pub op_type: String,
    pub inputs: Vec<String>,
    pub outputs: Vec<String>,
    pub name: Option<String>,
    pub doc_string: Option<String>,
    pub domain: Option<String>,
    pub attributes: Vec<(String, Attribute)>,
    /// Whether the node that is built goes into the bag.
    pub bagged: bool,
}

impl Node {
    /// The record that `build` makes of the builder.
    pub open spec fn built(&self) -> NodeView {
        assembled(
            match self.name {
                Some(n) => Some(n@),
                None => None,
            },
            self.op_type@,
            texts(self.inputs@),
            texts(self.outputs@),
            pairs(self.attributes@),
            text_or_empty(self.domain),
            text_or_empty(self.doc_string),
        )
    }

    /// Whether the builder holds nothing but the given operation.
    pub open spec fn blank(&self, op: Seq<char>) -> bool {
        &&& self.op_type@ == op
        &&& self.inputs@.len() == 0
        &&& self.outputs@.len() == 0
        &&& self.name is None
        &&& self.doc_string is None
        &&& self.domain is None
        &&& self.attributes@.len() == 0
        &&& !self.bagged
    }

    /// Creates a new builder of the given operation.
    pub fn new(op_type: &str) -> (r: Self)
        ensures
            r.blank(op_type@),
    {
        Node {
            op_type: op_type.to_owned(),
            inputs: Vec::new(),
            outputs: Vec::new(),
            name: None,
            doc_string: None,
            domain: None,
            attributes: Vec::new(),
            bagged: false,
        }
    }

    /// Creates a new builder of a node with the given name and no operation.
    pub fn named(name: &str) -> (r: Self)
        ensures
            r.name matches Some(n) && n@ == name@,
            r == (Node { name: r.name, ..r }),
            (Node { name: None, ..r }).blank(Seq::empty()),
    {
        Node {
            op_type: String::new(),
            inputs: Vec::new(),
            outputs: Vec::new(),
            name: Some(name.to_owned()),
            doc_string: None,
            domain: None,
            attributes: Vec::new(),
            bagged: false,
        }
    }

    /// Sets node name.
    pub fn name(self, name: &str) -> (r: Self)
        ensures
            r.name matches Some(n) && n@ == name@,
            r == (Node { name: r.name, ..self }),
    {
        let mut node = self;
        node.name = Some(name.to_owned());
        node
    }

    /// Sets node op type.
    pub fn op(self, op: &str) -> (r: Self)
        ensures
            r.op_type@ == op@,
            r == (Node { op_type: r.op_type, ..self }),
    {
        let mut node = self;
        node.op_type = op.to_owned();
        node
    }

    /// Sets node doc_string.
    pub fn doc_string(self, doc_string: &str) -> (r: Self)
        ensures
            r.doc_string matches Some(d) && d@ == doc_string@,
            r == (Node { doc_string: r.doc_string, ..self }),
    {
        let mut node = self;
        node.doc_string = Some(doc_string.to_owned());
        node
    }

    /// Sets node domain.
    pub fn domain(self, domain: &str) -> (r: Self)
        ensures
            r.domain matches Some(d) && d@ == domain@,
            r == (Node { domain: r.domain, ..self }),
    {
        let mut node = self;
        node.domain = Some(domain.to_owned());
        node
    }

    /// Inserts node input.
    pub fn input(self, input: &str) -> (r: Self)
        ensures
            texts(r.inputs@) == texts(self.inputs@).push(input@),
            r == (Node { inputs: r.inputs, ..self }),
    {
        let mut node = self;
        node.inputs.push(input.to_owned());
        assert(texts(node.inputs@) =~= texts(self.inputs@).push(input@));
        node
    }

    /// Inserts node output.
    pub fn output(self, output: &str) -> (r: Self)
        ensures
            texts(r.outputs@) == texts(self.outputs@).push(output@),
            r == (Node { outputs: r.outputs, ..self }),
    {
        let mut node = self;
        node.outputs.push(output.to_owned());
        assert(texts(node.outputs@) =~= texts(self.outputs@).push(output@));
        node
    }

    /// Inserts node inputs.
    pub fn inputs(self, inputs: Vec<String>) -> (r: Self)
        ensures
            texts(r.inputs@) == texts(self.inputs@) + texts(inputs@),
            r == (Node { inputs: r.inputs, ..self }),
    {
        let mut node = self;
        let mut more = inputs;
        node.inputs.append(&mut more);
        assert(texts(node.inputs@) =~= texts(self.inputs@) + texts(inputs@));
        node
    }

    /// Inserts node outputs.
    pub fn outputs(self, outputs: Vec<String>) -> (r: Self)
        ensures
            texts(r.outputs@) == texts(self.outputs@) + texts(outputs@),
            r == (Node { outputs: r.outputs, ..self }),
    {
        let mut node = self;
        let mut more = outputs;
        node.outputs.append(&mut more);
        assert(texts(node.outputs@) =~= texts(self.outputs@) + texts(outputs@));
        node
    }

    /// Inserts node attributes.
    pub fn attribute(self, name: &str, attribute: Attribute) -> (r: Self)
        ensures
            pairs(r.attributes@) == pairs(self.attributes@).push((name@, attribute@)),
            r == (Node { attributes: r.attributes, ..self }),
    {
        let mut node = self;
        node.attributes.push((name.to_owned(), attribute));
        assert(pairs(node.attributes@) =~= pairs(self.attributes@).push((name@, attribute@)));
        node
    }

    /// The name that the node gets where none was given.
    pub fn default_name(&self) -> (r: String)
        ensures
            r@ == default_name(self.op_type@, texts(self.inputs@), pairs(self.attributes@)),
    {
        let mut shown: Vec<String> = Vec::new();
        let mut k: usize = 0;
        while k < self.attributes.len()
            invariant
                k <= self.attributes.len(),
                shown.len() == k,
                forall|j: int|
                    0 <= j < k ==> (#[trigger] shown@[j])@ == labels(pairs(self.attributes@))[j],
            decreases self.attributes.len() - k,
        {
            let mut label = self.attributes[k].0.clone();
            label.append("_");
            label.append(self.attributes[k].1.render().as_str());
            shown.push(label);
            k = k + 1;
        }
        assert(texts(shown@) =~= labels(pairs(self.attributes@)));
        let tail = join(&shown, "_");
        if self.inputs.len() == 2 {
            let mut name = self.inputs[0].clone();
            name.append("_");
            name.append(self.op_type.as_str());
            name.append("_");
            name.append(self.inputs[1].as_str());
            name.append("_");
            name.append(tail.as_str());
            name
        } else {
            let mut name = String::from_str("S");
            name.append(self.op_type.as_str());
            name.append("_");
            name.append(join(&self.inputs, "_").as_str());
            name.append("_");
            name.append(self.op_type.as_str());
            name.append("_");
            name.append(tail.as_str());
            name.append("E");
            name
        }
    }

    /// Builds the record of the node: a name derived from the content where
    /// none was given, and one output derived from the name where none was
    /// declared, so that the record always names at least one output.
    pub fn into_proto(self) -> (r: NodeProto)
        ensures
            r@ == self.built(),
            r@.output.len() > 0,
    {
        let name = match &self.name {
            Some(name) => name.clone(),
            None => self.default_name(),
        };
        let output = if self.outputs.len() > 0 {
            self.outputs
        } else {
            let mut only = name.clone();
            only.append("O");
            let mut list: Vec<String> = Vec::new();
            list.push(only);
            assert(texts(list@) =~= seq![default_output(name@)]);
            list
        };
        let mut attribute: Vec<AttributeProto> = Vec::new();
        for pair in it: self.attributes
            invariant
                it.seq() == self.attributes@,
                attribute.len() == it.index(),
                forall|j: int|
                    0 <= j < it.index() ==> (#[trigger] attribute@[j])@ == records(
                        pairs(self.attributes@),
                    )[j],
        {
            let (name, attr) = pair;
            attribute.push(make_attribute(name, attr));
        }
        let proto = NodeProto {
            name,
            domain: match self.domain {
                Some(d) => d,
                None => String::new(),
            },
            op_type: self.op_type,
            doc_string: match self.doc_string {
                Some(d) => d,
                None => String::new(),
            },
            input: self.inputs,
            output,
            attribute,
        };
        proof {
            assert(proto@.attribute =~= records(pairs(self.attributes@)));
            assert(views(proto.input@) =~= texts(self.inputs@));
            assert(views(proto.output@) =~= self.built().output);
        }
        proto
    }

    /// Builds the node. The node of a builder that belongs to a graph is
    /// registered in the bag.
    pub fn build(self, bag: &mut Bag) -> (r: nodes::Node)
        ensures
            settled(self.bagged, old(bag), final(bag), r, self.built()),
    {
        let bagged = self.bagged;
        let proto = self.into_proto();
        let node = nodes::Node::from_proto(proto);
        nodes::maybe_bag_node(bagged, bag, node)
    }
}

impl Default for Node {
    fn default() -> (r: Self)
        ensures
            r.blank(Seq::empty()),
    {
        Node {
            op_type: String::new(),
            inputs: Vec::new(),
            outputs: Vec::new(),
            name: None,
            doc_string: None,
            domain: None,
            attributes: Vec::new(),
            bagged: false,
        }
    }
}

/// Nodes built without a name from the same operation, the same consumed
/// names and the same attributes bear the same name, and, if they declare
/// no outputs, produce the same name: an expression that is built twice
/// names one node.
pub proof fn lemma_names_are_determined(a: Node, b: Node)
    requires
        a.name is None,
        b.name is None,
        a.op_type@ == b.op_type@,
        texts(a.inputs@) == texts(b.inputs@),
        pairs(a.attributes@) == pairs(b.attributes@),
    ensures
        a.built().name == b.built().name,
        a.outputs@.len() == 0 && b.outputs@.len() == 0 ==> a.built().output == b.built().output,
{
}

/// Every record that a builder makes names at least one output, so that a
/// node with an operation can always be consumed by its first output.
pub proof fn lemma_built_names_an_output(b: Node)
    ensures
        b.built().output.len() >= 1,
        b.outputs@.len() == 0 ==> b.built().output == seq![default_output(b.built().name)],
{
}

} // verus!
