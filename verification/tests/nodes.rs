use onnx_helpers::builder::{Bag, Graph};
use onnx_helpers::nodes::{maybe_bag_node, maybe_bag_rename, select, Axes, Node, Place};
use onnx_helpers::proto::{DataType, Dimension, NodeProto, TensorProto, ValueInfoProto};

fn texts(parts: &[&str]) -> Vec<String> {
    parts.iter().map(|p| p.to_string()).collect()
}

fn proto(name: &str, op: &str, input: &[&str], output: &[&str]) -> NodeProto {
    let mut p = NodeProto::default();
    p.name = name.to_string();
    p.op_type = op.to_string();
    p.input = texts(input);
    p.output = texts(output);
    p
}

fn input(graph: &mut Graph, name: &str) -> Node {
    graph.input(name).typed(DataType::Float).dim(Dimension::from(1)).node(&mut graph.bag)
}

#[test]
fn a_node_without_operation_is_consumed_by_its_name() {
    let bag = Bag::new();
    let node = Node::from_proto(proto("X", "", &[], &["XO"]));
    assert_eq!(node.select_output(&bag), "X");
    assert_eq!(select(&proto("X", "", &[], &[])), "X");
}

#[test]
fn a_node_with_operation_is_consumed_by_its_first_output() {
    let bag = Bag::new();
    let node = Node::from_proto(proto("n", "Split", &["x"], &["left", "right"]));
    assert_eq!(node.select_output(&bag), "left");
    assert_eq!(node.name(&bag), "n");
    assert_eq!(node.proto(&bag), proto("n", "Split", &["x"], &["left", "right"]));
    assert_eq!(node.value_info(&bag), ValueInfoProto::named("left"));
}

#[test]
fn a_record_without_outputs_is_consumed_by_its_name() {
    assert_eq!(select(&proto("n", "Op", &["x"], &[])), "n");
}

#[test]
fn from_proto_makes_a_free_node() {
    let node = Node::from(proto("n", "Op", &[], &["o"]));
    assert!(!node.bagged);
    assert!(!node.is_attached());
    assert!(node.is_within(&Bag::new()));
    assert!(matches!(node.place, Place::Held(_)));
}

#[test]
fn a_listed_node_needs_its_place() {
    let node = Node { place: Place::Listed(0), bagged: true };
    let mut bag = Bag::new();
    assert!(!node.is_within(&bag));
    bag.node(proto("n", "Op", &[], &["o"]));
    assert!(node.is_within(&bag));
    assert!(node.is_attached());
    assert_eq!(node.name(&bag), "n");
}

#[test]
fn operations_on_a_free_node_stay_free() {
    let mut bag = Bag::new();
    let x = Node::from_proto(proto("X", "", &[], &["XO"]));
    let y = Node::from_proto(proto("n", "Op", &[], &["y"]));
    let sum = x.add(&y, &mut bag);
    assert!(bag.nodes.is_empty());
    assert!(!sum.bagged);
    assert_eq!(sum.proto(&bag).input, texts(&["X", "y"]));
    assert_eq!(sum.name(&bag), "X_Add_y_");
    let root = sum.sqrt(&mut bag);
    assert!(bag.nodes.is_empty());
    assert_eq!(root.proto(&bag).input, texts(&["X_Add_y_O"]));
}

#[test]
fn operations_on_a_graph_node_are_registered() {
    let mut graph = Graph::new("g");
    let x = input(&mut graph, "X");
    assert!(x.bagged);
    assert!(matches!(x.place, Place::Held(_)));
    assert!(graph.bag.nodes.is_empty());
    assert_eq!(graph.bag.inputs.len(), 1);

    let root = x.sqrt(&mut graph.bag);
    assert!(matches!(root.place, Place::Listed(0)));
    assert!(root.bagged);
    assert_eq!(graph.bag.nodes.len(), 1);
    assert_eq!(graph.bag.nodes[0].name, "SSqrt_X_Sqrt_E");
    assert_eq!(graph.bag.nodes[0].input, texts(&["X"]));

    let act = root.relu(&mut graph.bag);
    assert!(matches!(act.place, Place::Listed(1)));
    assert_eq!(graph.bag.nodes[1].input, texts(&["SSqrt_X_Sqrt_EO"]));
    assert_eq!(graph.bag.nodes[1].op_type, "Relu");
}

#[test]
fn every_operation_method_names_its_operation() {
    let mut graph = Graph::new("g");
    let x = input(&mut graph, "X");
    let y = input(&mut graph, "Y");
    let bag = &mut graph.bag;
    let made = vec![
        (x.add(&y, bag), "Add", 2),
        (x.sub(&y, bag), "Sub", 2),
        (x.mul(&y, bag), "Mul", 2),
        (x.div(&y, bag), "Div", 2),
        (x.neg(bag), "Neg", 1),
        (x.not(bag), "Not", 1),
        (x.sqrt(bag), "Sqrt", 1),
        (x.abs(bag), "Abs", 1),
        (x.relu(bag), "Relu", 1),
        (x.tanh(bag), "Tanh", 1),
        (x.size(bag), "Size", 1),
        (x.pow("Y", bag), "Pow", 2),
        (x.equal("Y", bag), "Equal", 2),
        (x.greater("Y", bag), "Greater", 2),
        (x.less("Y", bag), "Less", 2),
        (x.and("Y", bag), "And", 2),
        (x.or("Y", bag), "Or", 2),
        (x.sum(Axes::from(0), false, bag), "ReduceSum", 1),
        (x.max(Axes::from(0), false, bag), "ReduceMax", 1),
        (x.mean(Axes::from(0), false, bag), "ReduceMean", 1),
        (x.min(Axes::from(0), false, bag), "ReduceMin", 1),
    ];
    assert_eq!(bag.nodes.len(), made.len());
    for (at, (node, op, operands)) in made.iter().enumerate() {
        assert!(matches!(node.place, Place::Listed(s) if s == at));
        let record = node.proto(bag);
        assert_eq!(record.op_type, *op);
        assert_eq!(record.input.len(), *operands);
        assert_eq!(record.input[0], "X");
        if *operands == 2 {
            assert_eq!(record.input[1], "Y");
        }
        assert_eq!(record, bag.nodes[at]);
    }
}

#[test]
fn with_name_renames_a_free_node() {
    let mut bag = Bag::new();
    bag.node(proto("other", "Op", &["n", "left"], &["z"]));
    let node = Node::from_proto(proto("n", "Split", &["x"], &["left", "right"]));
    let node = node.with_name("parts", &mut bag);
    assert_eq!(node.proto(&bag), proto("parts", "Split", &["x"], &["parts0", "parts1"]));
    assert_eq!(bag.nodes[0], proto("other", "Op", &["n", "left"], &["z"]));
}

#[test]
fn with_name_numbers_many_outputs() {
    let mut bag = Bag::new();
    let outputs: Vec<String> = (0..12).map(|k| format!("o{}", k)).collect();
    let mut record = proto("n", "Op", &[], &[]);
    record.output = outputs;
    let node = Node::from_proto(record).with_name("N", &mut bag);
    let want: Vec<String> = (0..12).map(|k| format!("N{}", k)).collect();
    assert_eq!(node.proto(&bag).output, want);
}

#[test]
fn with_name_renames_a_listed_node_in_its_place() {
    let mut graph = Graph::new("g");
    let x = input(&mut graph, "X");
    let root = x.sqrt(&mut graph.bag);
    let act = root.relu(&mut graph.bag);
    let root = root.with_name("root", &mut graph.bag);
    assert!(matches!(root.place, Place::Listed(0)));
    assert_eq!(graph.bag.nodes[0].name, "root");
    assert_eq!(graph.bag.nodes[0].output, texts(&["root0"]));
    assert_eq!(graph.bag.nodes[0].input, texts(&["X"]));
    assert_eq!(root.select_output(&graph.bag), "root0");
    assert_eq!(graph.bag.nodes[1].input, texts(&["root0"]));
    assert_eq!(act.proto(&graph.bag).input, texts(&["root0"]));
}

#[test]
fn with_name_of_an_input_reaches_values_and_consumers() {
    let mut graph = Graph::new("g");
    let x = input(&mut graph, "X");
    let root = x.sqrt(&mut graph.bag);
    let x = x.with_name("data", &mut graph.bag);
    assert_eq!(x.name(&graph.bag), "data");
    assert_eq!(x.select_output(&graph.bag), "data");
    assert_eq!(graph.bag.inputs[0].name, "data");
    assert_eq!(root.proto(&graph.bag).input, texts(&["data"]));
    assert_eq!(root.name(&graph.bag), "SSqrt_X_Sqrt_E");
}

#[test]
fn rename_propagates_to_consumers() {
    let mut graph = Graph::new("g");
    let n = graph.constant(Some("A"), TensorProto::of_i64(1));
    let by_name = graph.node("m").op("Identity").input("A").build(&mut graph.bag);
    let by_output = n.relu(&mut graph.bag);
    let declared = n.value_info(&graph.bag);
    graph.bag.value(declared, onnx_helpers::builder::Marker::Output);
    let mut named = ValueInfoProto::named("A");
    named.doc_string = "kept".to_string();
    graph.bag.value(named, onnx_helpers::builder::Marker::Output);

    let n = n.with_name("B", &mut graph.bag);
    assert_eq!(n.name(&graph.bag), "B");
    assert_eq!(n.proto(&graph.bag).output, texts(&["B0"]));
    assert_eq!(by_name.proto(&graph.bag).input, texts(&["B"]));
    assert_eq!(by_output.proto(&graph.bag).input, texts(&["B0"]));
    assert_eq!(graph.bag.outputs[0].name, "B0");
    assert_eq!(graph.bag.outputs[1].name, "B");
    assert_eq!(graph.bag.outputs[1].doc_string, "kept");

    let built = graph.build().unwrap();
    for node in built.node.iter() {
        assert_ne!(node.name, "A");
        assert!(node.input.iter().all(|i| i != "A" && i != "AO"));
        assert!(node.output.iter().all(|o| o != "A" && o != "AO"));
    }
    assert!(built.output.iter().all(|v| v.name != "A" && v.name != "AO"));
    let m = built.node.iter().find(|n| n.name == "m").unwrap();
    assert!(m.input.contains(&"B".to_string()));
}

#[test]
fn rename_reaches_a_twin_of_the_node() {
    let mut graph = Graph::new("g");
    let x = input(&mut graph, "X");
    let first = x.relu(&mut graph.bag);
    let twin = x.relu(&mut graph.bag);
    assert_eq!(first.name(&graph.bag), twin.name(&graph.bag));
    let first = first.with_name("act", &mut graph.bag);
    assert_eq!(first.proto(&graph.bag), twin.proto(&graph.bag));
    assert_eq!(twin.select_output(&graph.bag), "act0");
    let built = graph.build().unwrap();
    assert_eq!(built.node.len(), 1);
    assert_eq!(built.node[0].name, "act");
}

#[test]
fn a_second_handle_reads_the_same_listed_node() {
    let mut graph = Graph::new("g");
    let x = input(&mut graph, "X");
    let root = x.sqrt(&mut graph.bag);
    let other = root.clone();
    let root = root.with_name("root", &mut graph.bag);
    assert_eq!(other.name(&graph.bag), "root");
    assert_eq!(other.select_output(&graph.bag), root.select_output(&graph.bag));
    let copy = x.clone();
    assert_eq!(copy.name(&graph.bag), "X");
    assert!(copy.bagged);
}

#[test]
fn maybe_bag_node_registers_only_for_a_graph() {
    let mut bag = Bag::new();
    let free = maybe_bag_node(false, &mut bag, Node::from_proto(proto("a", "Op", &[], &["o"])));
    assert!(bag.nodes.is_empty());
    assert!(!free.bagged);
    let listed = maybe_bag_node(true, &mut bag, Node::from_proto(proto("a", "Op", &[], &["o"])));
    assert_eq!(bag.nodes.len(), 1);
    assert!(matches!(listed.place, Place::Listed(0)));
    let again = maybe_bag_node(true, &mut bag, listed);
    assert_eq!(bag.nodes.len(), 1);
    assert!(matches!(again.place, Place::Listed(0)));
}

#[test]
fn maybe_bag_rename_renames_only_for_a_graph() {
    let mut bag = Bag::new();
    bag.node(proto("a", "Op", &["a"], &["a"]));
    maybe_bag_rename(false, &mut bag, None, "a", "b");
    assert_eq!(bag.nodes[0], proto("a", "Op", &["a"], &["a"]));
    maybe_bag_rename(true, &mut bag, Some(0), "a", "b");
    assert_eq!(bag.nodes[0], proto("a", "Op", &["a"], &["a"]));
    maybe_bag_rename(true, &mut bag, None, "a", "b");
    assert_eq!(bag.nodes[0], proto("b", "Op", &["b"], &["b"]));
}
