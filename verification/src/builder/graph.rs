//! Graph builder.

use vstd::prelude::*;

use crate::builder::bag::{node_mentions, Bag, BagView, Marker};
use crate::builder::model::Model;
use crate::builder::node::text_or_empty;
use crate::builder::dedup::{
    dedup_nodes, dedup_values, names, node_name, value_name, value_names,
};
use crate::builder::order::{
    arranged, dependency_order, lemma_arranged_members, links, ordered, sort_nodes, BuildError,
};
use crate::builder::toposort::has_cycle;
use crate::seqs::{distinct_by, lemma_distinct_keys, lemma_distinct_members};
use crate::builder::{Node, Value};
use crate::nodes;
use crate::nodes::ops::{Concat, Constant};
use crate::nodes::{maybe_bag_node, resolved, settled};
use crate::proto::{
    views, DataType, GraphProto, GraphView, NodeProto, NodeView, TensorProto, TypeProto,
    ValueInfoProto, ValueInfoView,
};
use crate::text::{decimal, decimal_of_i64, texts};

verus! {

/// The name of a constant: the given one, or else `Constant_` followed by
/// the number of constants made before it.
pub open spec fn constant_name(name: Option<&str>, count: i64) -> Seq<char> {
    match name {
        Some(n) => n@,
        None => "Constant_"@ + decimal(count as int),
    }
}

/// The names by which a list of nodes is consumed.
pub open spec fn resolved_all(inputs: Seq<nodes::Node>, bag: &Bag) -> Seq<Seq<char>> {
    Seq::new(inputs.len(), |k: int| resolved(inputs[k].record(bag)))
}

/// Graph builder.
///
/// A builder is open until `build` consumes it: a graph is built once.
#[derive(Clone, Debug)]
pub struct Graph {
    pub name: String,
    pub nodes: Vec<NodeProto>,
    pub inputs: Vec<ValueInfoProto>,
    pub outputs: Vec<ValueInfoProto>,
    pub initializers: Vec<TensorProto>,
    pub doc_string: Option<String>,
    /// How many constants the graph has made.
    pub constants: i64,
    pub bag: Bag,
}

impl Graph {
    /// The nodes of the graph before repeated names are removed: those
    /// given one by one, then those of the bag.
    pub open spec fn merged_nodes(&self) -> Seq<NodeView> {
        views(self.nodes@) + self.bag@.nodes
    }

    /// The inputs of the graph before repeated names are removed.
    pub open spec fn merged_inputs(&self) -> Seq<ValueInfoView> {
        views(self.inputs@) + self.bag@.inputs
    }

    /// The outputs of the graph before repeated names are removed.
    pub open spec fn merged_outputs(&self) -> Seq<ValueInfoView> {
        views(self.outputs@) + self.bag@.outputs
    }

    /// The nodes of the graph, each name once: of the nodes of one name the
    /// first stays.
    pub open spec fn kept_nodes(&self) -> Seq<NodeView> {
        distinct_by(self.merged_nodes(), node_name())
    }

    /// The graph that `build` makes of the builder, where the links of its
    /// nodes do not run in a circle.
    pub open spec fn built(&self) -> GraphView {
        GraphView {
            name: self.name@,
            node: arranged(self.kept_nodes(), dependency_order(self.kept_nodes())),
            input: distinct_by(self.merged_inputs(), value_name()),
            output: distinct_by(self.merged_outputs(), value_name()),
            doc_string: text_or_empty(self.doc_string),
            initializer: views(self.initializers@),
        }
    }

    /// Creates a new builder: an empty graph of the given name with an
    /// empty bag.
    pub fn new(name: &str) -> (r: Self)
        ensures
            r.name@ == name@,
            r.nodes@.len() == 0,
            r.inputs@.len() == 0,
            r.outputs@.len() == 0,
            r.initializers@.len() == 0,
            r.doc_string is None,
            r.constants == 0,
            r.bag@ == (BagView { nodes: Seq::empty(), inputs: Seq::empty(), outputs: Seq::empty() }),
    {
        Graph {
            name: name.to_owned(),
            nodes: Vec::new(),
            inputs: Vec::new(),
            outputs: Vec::new(),
            initializers: Vec::new(),
            doc_string: None,
            constants: 0,
            bag: Bag::new(),
        }
    }

    /// Sets graph name.
    pub fn name(self, name: &str) -> (r: Self)
        ensures
            r.name@ == name@,
            r == (Graph { name: r.name, ..self }),
    {
        let mut graph = self;
        graph.name = name.to_owned();
        graph
    }

    /// Sets graph doc_string.
    pub fn doc_string(self, doc_string: &str) -> (r: Self)
        ensures
            r.doc_string matches Some(d) && d@ == doc_string@,
            r == (Graph { doc_string: r.doc_string, ..self }),
    {
        let mut graph = self;
        graph.doc_string = Some(doc_string.to_owned());
        graph
    }

    /// Creates constant node in a graph. The node carries the tensor as its
    /// attribute `value` and is registered in the bag.
    pub fn constant(&mut self, name: Option<&str>, tensor: TensorProto) -> (r: nodes::Node)
        requires
            old(self).constants < i64::MAX,
        ensures
            final(self).constants == old(self).constants + 1,
            *final(self) == (Graph {
                constants: final(self).constants,
                bag: final(self).bag,
                ..*old(self)
            }),
            settled(
                true,
                &old(self).bag,
                &final(self).bag,
                r,
                Constant::made(constant_name(name, old(self).constants), tensor@),
            ),
    {
        let node = match name {
            Some(name) => Constant::new(name, tensor).into_node(),
            None => {
                let mut counted = String::from_str("Constant_");
                counted.append(decimal_of_i64(self.constants).as_str());
                Constant::new(counted.as_str(), tensor).into_node()
            },
        };
        self.constants = self.constants + 1;
        maybe_bag_node(true, &mut self.bag, node)
    }

    /// Creates a concat node in a graph: the concatenation of the given
    /// nodes, in their order, along `axis`. It is registered in the bag.
    pub fn concat(&mut self, axis: i64, inputs: &Vec<nodes::Node>) -> (r: nodes::Node)
        requires
            forall|k: int| 0 <= k < inputs.len() ==> (#[trigger] inputs[k]).within(&old(self).bag),
        ensures
            *final(self) == (Graph { bag: final(self).bag, ..*old(self) }),
            settled(
                true,
                &old(self).bag,
                &final(self).bag,
                r,
                Concat::made(axis, resolved_all(inputs@, &old(self).bag)),
            ),
    {
        let mut consumed: Vec<String> = Vec::new();
        let mut k: usize = 0;
        while k < inputs.len()
            invariant
                k <= inputs.len(),
                consumed.len() == k,
                *self == *old(self),
                forall|j: int| 0 <= j < inputs.len() ==> (#[trigger] inputs[j]).within(&self.bag),
                forall|j: int|
                    0 <= j < k ==> (#[trigger] consumed@[j])@ == resolved(inputs[j].record(&self.bag)),
            decreases inputs.len() - k,
        {
            consumed.push(inputs[k].select_output(&self.bag));
            k = k + 1;
        }
        proof {
            assert(texts(consumed@) =~= resolved_all(inputs@, &old(self).bag));
        }
        let node = Concat::new(axis, consumed).into_node();
        maybe_bag_node(true, &mut self.bag, node)
    }

    /// Inserts graph nodes.
    pub fn nodes(self, node: NodeProto) -> (r: Self)
        ensures
            r.nodes@ == self.nodes@.push(node),
            r == (Graph { nodes: r.nodes, ..self }),
    {
        let mut graph = self;
        graph.nodes.push(node);
        graph
    }

    /// Inserts graph inputs.
    pub fn inputs(self, input: ValueInfoProto) -> (r: Self)
        ensures
            r.inputs@ == self.inputs@.push(input),
            r == (Graph { inputs: r.inputs, ..self }),
    {
        let mut graph = self;
        graph.inputs.push(input);
        graph
    }

    /// Inserts graph outputs.
    pub fn outputs(self, output: ValueInfoProto) -> (r: Self)
        ensures
            r.outputs@ == self.outputs@.push(output),
            r == (Graph { outputs: r.outputs, ..self }),
    {
        let mut graph = self;
        graph.outputs.push(output);
        graph
    }

    /// Inserts typed graph outputs: the output gets a tensor type of the
    /// given element type unless it has a type already.
    pub fn outputs_typed(self, output: ValueInfoProto, typ: DataType) -> (r: Self)
        ensures
            r.outputs@.len() == self.outputs@.len() + 1,
            r.outputs@.drop_last() == self.outputs@,
            r.outputs@.last()@ == if output.typ is Some {
                output@
            } else {
                ValueInfoView { typ: Some(TypeProto::spec_of(typ)), ..output@ }
            },
            r == (Graph { outputs: r.outputs, ..self }),
    {
        let mut graph = self;
        let mut info = output;
        if info.typ.is_none() {
            info.typ = Some(TypeProto::of(typ));
        }
        graph.outputs.push(info);
        proof {
            assert(graph.outputs@.drop_last() =~= self.outputs@);
        }
        graph
    }

    /// Declares what the node provides as an output of the graph: the
    /// output bears the name by which the node is consumed.
    pub fn output_of(self, node: &nodes::Node) -> (r: Self)
        requires
            node.within(&self.bag),
        ensures
            r.outputs@.len() == self.outputs@.len() + 1,
            r.outputs@.drop_last() == self.outputs@,
            r.outputs@.last()@ == ValueInfoProto::spec_named(resolved(node.record(&self.bag))),
            r == (Graph { outputs: r.outputs, ..self }),
    {
        let info = node.value_info(&self.bag);
        let mut graph = self;
        graph.outputs.push(info);
        proof {
            assert(graph.outputs@.drop_last() =~= self.outputs@);
        }
        graph
    }

    /// Declares what the node provides as an output of the graph, with a
    /// tensor type of the given element type.
    pub fn output_of_typed(self, node: &nodes::Node, typ: DataType) -> (r: Self)
        requires
            node.within(&self.bag),
        ensures
            r.outputs@.len() == self.outputs@.len() + 1,
            r.outputs@.drop_last() == self.outputs@,
            r.outputs@.last()@ == (ValueInfoView {
                typ: Some(TypeProto::spec_of(typ)),
                ..ValueInfoProto::spec_named(resolved(node.record(&self.bag)))
            }),
            r == (Graph { outputs: r.outputs, ..self }),
    {
        let info = node.value_info(&self.bag);
        self.outputs_typed(info, typ)
    }

    /// Inserts graph initializers.
    pub fn initializer(self, initializer: TensorProto) -> (r: Self)
        ensures
            r.initializers@ == self.initializers@.push(initializer),
            r == (Graph { initializers: r.initializers, ..self }),
    {
        let mut graph = self;
        graph.initializers.push(initializer);
        graph
    }

    /// Creates graph node builder: the node that it builds is registered
    /// in the bag.
    pub fn node(&mut self, name: &str) -> (r: Node)
        ensures
            *final(self) == *old(self),
            r.name matches Some(n) && n@ == name@,
            r.bagged,
            (Node { name: None, bagged: false, ..r }).blank(Seq::empty()),
    {
        let mut node = Node::default().name(name);
        node.bagged = true;
        node
    }

    /// Creates graph input builder.
    pub fn input(&mut self, name: &str) -> (r: Value)
        ensures
            *final(self) == *old(self),
            r.name@ == name@,
            r.elem_type == DataType::Undefined,
            r.shape@.len() == 0,
            r.doc_string is None,
            r.marker == Some(Marker::Input),
    {
        let mut value = Value::new(name);
        value.marker = Some(Marker::Input);
        value
    }

    /// Creates graph output builder.
    pub fn output(&mut self, name: &str) -> (r: Value)
        ensures
            *final(self) == *old(self),
            r.name@ == name@,
            r.elem_type == DataType::Undefined,
            r.shape@.len() == 0,
            r.doc_string is None,
            r.marker == Some(Marker::Output),
    {
        let mut value = Value::new(name);
        value.marker = Some(Marker::Output);
        value
    }

    /// Builds a model builder from graph.
    pub fn model(self) -> (r: Result<Model, BuildError>)
        ensures
            r is Err <==> has_cycle(links(self.kept_nodes())),
            r matches Ok(m) ==> {
                &&& m.graph@ == self.built()
                &&& ordered(m.graph@.node)
                &&& m.domain is None
                &&& m.model_version is None
                &&& m.producer_name is None
                &&& m.producer_version is None
                &&& m.doc_string is None
                &&& m.metadata@.len() == 0
                &&& m.opset_imports is None
            },
    {
        match self.build() {
            Ok(graph) => Ok(Model::new(graph)),
            Err(e) => Err(e),
        }
    }

    /// Builds the graph: merges what was given one by one with what the bag
    /// collected, keeps of every name the first node, input and output, and
    /// arranges the nodes in the order of their dependencies. A graph whose
    /// links run in a circle is refused.
    ///
    /// In the graph that is built every node stands after the nodes that
    /// provide what it consumes, and every name that was given or
    /// registered, once or more often, occurs exactly once.
    pub fn build(self) -> (r: Result<GraphProto, BuildError>)
        ensures
            r is Err <==> has_cycle(links(self.kept_nodes())),
            r matches Ok(g) ==> {
                &&& g@ == self.built()
                &&& ordered(g@.node)
                &&& names(g@.node).no_duplicates()
                &&& value_names(g@.input).no_duplicates()
                &&& value_names(g@.output).no_duplicates()
                &&& forall|x: Seq<char>|
                    names(g@.node).contains(x) <==> names(self.merged_nodes()).contains(x)
                &&& forall|x: Seq<char>|
                    value_names(g@.input).contains(x) <==> value_names(self.merged_inputs()).contains(
                        x,
                    )
                &&& forall|x: Seq<char>|
                    value_names(g@.output).contains(x) <==> value_names(
                        self.merged_outputs(),
                    ).contains(x)
            },
    {
        let mut bag = self.bag;
        let mut nodes = self.nodes;
        nodes.append(&mut bag.nodes);
        proof {
            assert(views(nodes@) =~= self.merged_nodes());
        }
        let nodes = dedup_nodes(nodes);
        let ghost kept = views(nodes@);
        let sorted = match sort_nodes(nodes) {
            Ok(sorted) => sorted,
            Err(e) => {
                return Err(e);
            },
        };
        let mut inputs = self.inputs;
        inputs.append(&mut bag.inputs);
        proof {
            assert(views(inputs@) =~= self.merged_inputs());
        }
        let inputs = dedup_values(inputs);
        let mut outputs = self.outputs;
        outputs.append(&mut bag.outputs);
        proof {
            assert(views(outputs@) =~= self.merged_outputs());
        }
        let outputs = dedup_values(outputs);
        let graph = GraphProto {
            name: self.name,
            node: sorted,
            input: inputs,
            output: outputs,
            doc_string: match self.doc_string {
                Some(d) => d,
                None => String::new(),
            },
            initializer: self.initializers,
        };
        proof {
            let out = views(sorted@);
            assert(graph@.node =~= out);
            lemma_distinct_keys(self.merged_nodes(), node_name());
            lemma_distinct_keys(self.merged_inputs(), value_name());
            lemma_distinct_keys(self.merged_outputs(), value_name());
            assert forall|x: Seq<char>| names(out).contains(x) <==> names(kept).contains(x) by {
                if names(out).contains(x) {
                    let i = choose|i: int| 0 <= i < out.len() && names(out)[i] == x;
                    assert(out.contains(out[i]));
                    assert(kept.contains(out[i]));
                    let m = choose|m: int| 0 <= m < kept.len() && kept[m] == out[i];
                    assert(names(kept)[m] == x);
                }
                if names(kept).contains(x) {
                    let m = choose|m: int| 0 <= m < kept.len() && names(kept)[m] == x;
                    assert(kept.contains(kept[m]));
                    assert(out.contains(kept[m]));
                    let i = choose|i: int| 0 <= i < out.len() && out[i] == kept[m];
                    assert(names(out)[i] == x);
                }
            }
        }
        Ok(graph)
    }
}

impl Default for Graph {
    fn default() -> (r: Self)
        ensures
            r.name@.len() == 0,
            r.nodes@.len() == 0,
            r.inputs@.len() == 0,
            r.outputs@.len() == 0,
            r.initializers@.len() == 0,
            r.doc_string is None,
            r.constants == 0,
            r.bag@ == (BagView { nodes: Seq::empty(), inputs: Seq::empty(), outputs: Seq::empty() }),
    {
        Graph {
            name: String::new(),
            nodes: Vec::new(),
            inputs: Vec::new(),
            outputs: Vec::new(),
            initializers: Vec::new(),
            doc_string: None,
            constants: 0,
            bag: Bag::new(),
        }
    }
}

/// Building invents nothing: every node, input and output of the graph
/// that is built was given to the builder or registered in its bag.
pub proof fn lemma_built_of_registered(g: Graph)
    ensures
        forall|i: int|
            0 <= i < g.built().node.len() ==> g.merged_nodes().contains(#[trigger] g.built().node[i]),
        forall|i: int|
            0 <= i < g.built().input.len() ==> g.merged_inputs().contains(
                #[trigger] g.built().input[i],
            ),
        forall|i: int|
            0 <= i < g.built().output.len() ==> g.merged_outputs().contains(
                #[trigger] g.built().output[i],
            ),
{
    let kept = g.kept_nodes();
    let built = g.built();
    lemma_arranged_members(kept, dependency_order(kept));
    lemma_distinct_members(g.merged_nodes(), node_name());
    lemma_distinct_members(g.merged_inputs(), value_name());
    lemma_distinct_members(g.merged_outputs(), value_name());
    assert forall|i: int| 0 <= i < built.node.len() implies g.merged_nodes().contains(
        #[trigger] built.node[i],
    ) by {
        assert(kept.contains(built.node[i]));
        let m = choose|m: int| 0 <= m < kept.len() && kept[m] == built.node[i];
        assert(g.merged_nodes().contains(kept[m]));
    }
}

/// An identifier that nothing given or registered holds is not held by
/// anything in the graph that is built. After a node was renamed and the
/// renaming was carried through the bag, the graph does not hold the old
/// name.
pub proof fn lemma_built_forgets(g: Graph, id: Seq<char>)
    requires
        forall|k: int|
            0 <= k < g.merged_nodes().len() ==> !node_mentions(#[trigger] g.merged_nodes()[k], id),
        forall|k: int|
            0 <= k < g.merged_inputs().len() ==> (#[trigger] g.merged_inputs()[k]).name != id,
        forall|k: int|
            0 <= k < g.merged_outputs().len() ==> (#[trigger] g.merged_outputs()[k]).name != id,
    ensures
        forall|i: int|
            0 <= i < g.built().node.len() ==> !node_mentions(#[trigger] g.built().node[i], id),
        forall|i: int| 0 <= i < g.built().input.len() ==> (#[trigger] g.built().input[i]).name != id,
        forall|i: int|
            0 <= i < g.built().output.len() ==> (#[trigger] g.built().output[i]).name != id,
{
    let built = g.built();
    lemma_built_of_registered(g);
    assert forall|i: int| 0 <= i < built.node.len() implies !node_mentions(
        #[trigger] built.node[i],
        id,
    ) by {
        assert(g.merged_nodes().contains(built.node[i]));
        let k = choose|k: int| 0 <= k < g.merged_nodes().len() && g.merged_nodes()[k] == built.node[i];
        assert(!node_mentions(g.merged_nodes()[k], id));
    }
    assert forall|i: int| 0 <= i < built.input.len() implies (#[trigger] built.input[i]).name
        != id by {
        assert(g.merged_inputs().contains(built.input[i]));
        let k = choose|k: int|
            0 <= k < g.merged_inputs().len() && g.merged_inputs()[k] == built.input[i];
        assert(g.merged_inputs()[k].name != id);
    }
    assert forall|i: int| 0 <= i < built.output.len() implies (#[trigger] built.output[i]).name
        != id by {
        assert(g.merged_outputs().contains(built.output[i]));
        let k = choose|k: int|
            0 <= k < g.merged_outputs().len() && g.merged_outputs()[k] == built.output[i];
        assert(g.merged_outputs()[k].name != id);
    }
}

} // verus!
