use onnx_helpers::builder::{BuildError, Graph, Marker, Node};
use onnx_helpers::nodes::Place;
use onnx_helpers::proto::{
    DataType, Dimension, GraphProto, NodeProto, TensorProto, TypeProto, ValueInfoProto,
};

fn texts(parts: &[&str]) -> Vec<String> {
    parts.iter().map(|p| p.to_string()).collect()
}

fn proto(name: &str, input: &[&str], output: &[&str]) -> NodeProto {
    let mut p = NodeProto::default();
    p.name = name.to_string();
    p.op_type = "Op".to_string();
    p.input = texts(input);
    p.output = texts(output);
    p
}

fn names(graph: &GraphProto) -> Vec<String> {
    graph.node.iter().map(|n| n.name.clone()).collect()
}

#[test]
fn a_new_graph_is_empty() {
    let graph = Graph::new("g").build().unwrap();
    let mut want = GraphProto::default();
    want.name = "g".to_string();
    assert_eq!(graph, want);
    let graph = Graph::default().build().unwrap();
    assert_eq!(graph, GraphProto::default());
}

#[test]
fn name_and_documentation() {
    let graph = Graph::new("g").name("h").doc_string("about").build().unwrap();
    assert_eq!(graph.name, "h");
    assert_eq!(graph.doc_string, "about");
}

#[test]
fn what_is_given_one_by_one_is_kept() {
    let mut typed = ValueInfoProto::named("in");
    typed.typ = Some(TypeProto::of(DataType::Float));
    let graph = Graph::new("g")
        .nodes(proto("n", &["in"], &["out"]))
        .inputs(typed.clone())
        .outputs(ValueInfoProto::named("out"))
        .initializer(TensorProto::of_i64(1))
        .initializer(TensorProto::of_i64(1))
        .build()
        .unwrap();
    assert_eq!(graph.node, vec![proto("n", &["in"], &["out"])]);
    assert_eq!(graph.input, vec![typed]);
    assert_eq!(graph.output, vec![ValueInfoProto::named("out")]);
    assert_eq!(graph.initializer, vec![TensorProto::of_i64(1), TensorProto::of_i64(1)]);
}

#[test]
fn constants_are_named_by_their_count() {
    let mut graph = Graph::new("g");
    let a = graph.constant(None, TensorProto::of_i64(1));
    let b = graph.constant(Some("two"), TensorProto::of_i64(2));
    let c = graph.constant(None, TensorProto::of_i64(3));
    assert_eq!(a.name(&graph.bag), "Constant_0");
    assert_eq!(b.name(&graph.bag), "two");
    assert_eq!(c.name(&graph.bag), "Constant_2");
    assert_eq!(a.select_output(&graph.bag), "Constant_0O");
    assert_eq!(graph.constants, 3);
    assert!(matches!(c.place, Place::Listed(2)));
    assert!(c.bagged);
    let record = c.proto(&graph.bag);
    assert_eq!(record.op_type, "Constant");
    assert_eq!(record.attribute[0].name, "value");
    assert_eq!(record.attribute[0].t, Some(TensorProto::of_i64(3)));
    assert_eq!(graph.bag.nodes.len(), 3);
}

#[test]
fn concat_in_a_graph() {
    let mut graph = Graph::new("g");
    let x = graph.input("X").node(&mut graph.bag);
    let root = x.sqrt(&mut graph.bag);
    let both = graph.concat(0, &vec![x.clone(), root.clone()]);
    assert!(matches!(both.place, Place::Listed(1)));
    let record = both.proto(&graph.bag);
    assert_eq!(record.op_type, "Concat");
    assert_eq!(record.input, texts(&["X", "SSqrt_X_Sqrt_EO"]));
    assert_eq!(record.name, "X_Concat_SSqrt_X_Sqrt_EO_axis_int_0");
    assert_eq!(record.attribute[0].name, "axis");
    assert_eq!(record.attribute[0].i, 0);
    let both = both.with_name("concat", &mut graph.bag);
    let out = both.value_info(&graph.bag);
    assert!(!both.is_within(&Graph::new("other").bag));
    let built = graph.outputs(out).build().unwrap();
    assert_eq!(names(&built), texts(&["SSqrt_X_Sqrt_E", "concat"]));
    assert_eq!(built.output[0].name, "concat0");
}

#[test]
fn outputs_typed_fills_a_missing_type_only() {
    let mut typed = ValueInfoProto::named("a");
    typed.typ = Some(TypeProto::of(DataType::Int64));
    let graph = Graph::new("g")
        .outputs_typed(typed.clone(), DataType::Float)
        .outputs_typed(ValueInfoProto::named("b"), DataType::Float)
        .build()
        .unwrap();
    assert_eq!(graph.output[0], typed);
    assert_eq!(graph.output[1].name, "b");
    assert_eq!(graph.output[1].typ, Some(TypeProto::of(DataType::Float)));
    let typ = TypeProto::of(DataType::Float);
    assert_eq!(typ.elem_type, 1);
    assert_eq!(typ.denotation, "");
    assert!(typ.shape.is_none());
}

#[test]
fn builders_of_a_graph_carry_its_marks() {
    let mut graph = Graph::new("g");
    let node = graph.node("n");
    assert_eq!(node.name, Some("n".to_string()));
    assert!(node.bagged);
    assert_eq!(node.op_type, "");
    let input = graph.input("i");
    assert_eq!(input.name, "i");
    assert_eq!(input.marker, Some(Marker::Input));
    let output = graph.output("o");
    assert_eq!(output.marker, Some(Marker::Output));
    assert!(graph.bag.nodes.is_empty() && graph.bag.inputs.is_empty());
}

#[test]
fn each_name_occurs_once_in_the_built_graph() {
    let mut graph = Graph::new("g");
    let x = graph.input("X").typed(DataType::Float).node(&mut graph.bag);
    let again = graph.input("X").typed(DataType::Int64).node(&mut graph.bag);
    let one = x.relu(&mut graph.bag).sqrt(&mut graph.bag);
    let two = again.relu(&mut graph.bag).sqrt(&mut graph.bag);
    assert_eq!(one.name(&graph.bag), two.name(&graph.bag));
    assert_eq!(graph.bag.nodes.len(), 4);
    let out = one.value_info(&graph.bag);
    let graph = graph.outputs(out.clone()).outputs(out).build().unwrap();
    assert_eq!(names(&graph), texts(&["SRelu_X_Relu_E", "SSqrt_SRelu_X_Relu_EO_Sqrt_E"]));
    assert_eq!(graph.input.len(), 1);
    assert_eq!(graph.input[0].typ.as_ref().unwrap().elem_type, 1);
    assert_eq!(graph.output.len(), 1);
}

#[test]
fn what_was_given_comes_before_what_the_bag_holds() {
    let mut graph = Graph::new("g");
    graph.bag.node(proto("same", &["bag"], &["o"]));
    graph.bag.value(ValueInfoProto::named("v"), Marker::Input);
    let mut given = ValueInfoProto::named("v");
    given.doc_string = "given".to_string();
    let built = graph
        .nodes(proto("same", &["given"], &["o"]))
        .inputs(given.clone())
        .build()
        .unwrap();
    assert_eq!(built.node, vec![proto("same", &["given"], &["o"])]);
    assert_eq!(built.input, vec![given]);
}

#[test]
fn nodes_are_built_in_the_order_of_their_dependencies() {
    let built = Graph::new("g")
        .nodes(proto("n3", &["b"], &["c"]))
        .nodes(proto("n2", &["a"], &["b"]))
        .nodes(proto("n1", &["in"], &["a"]))
        .build()
        .unwrap();
    assert_eq!(names(&built), texts(&["n1", "n2", "n3"]));
}

#[test]
fn a_circle_is_refused() {
    let built = Graph::new("g")
        .nodes(proto("a", &["y"], &["x"]))
        .nodes(proto("b", &["x"], &["y"]))
        .build();
    assert_eq!(built, Err(BuildError::Cycle));
    let model = Graph::new("g").nodes(proto("a", &["x"], &["x"])).model();
    assert!(matches!(model, Err(BuildError::Cycle)));
}

#[test]
fn a_circle_made_by_renaming_is_refused() {
    let mut graph = Graph::new("g");
    let x = graph.input("X").node(&mut graph.bag);
    let root = x.sqrt(&mut graph.bag);
    assert!(graph.clone().build().is_ok());
    let root = root.with_name("X", &mut graph.bag);
    assert_eq!(root.proto(&graph.bag).input, texts(&["X"]));
    assert_eq!(graph.build(), Err(BuildError::Cycle));
}

#[test]
fn a_circle_among_dropped_twins_does_not_count() {
    let built = Graph::new("g")
        .nodes(proto("a", &["in"], &["x"]))
        .nodes(proto("a", &["x"], &["x"]))
        .build()
        .unwrap();
    assert_eq!(built.node, vec![proto("a", &["in"], &["x"])]);
}

#[test]
fn a_graph_builder_can_be_copied() {
    let mut graph = Graph::new("g");
    let x = graph.input("X").dim(Dimension::from("n".to_string())).node(&mut graph.bag);
    let _ = x.relu(&mut graph.bag);
    let copy = graph.clone();
    assert_eq!(copy.build(), graph.build());
}

#[test]
fn a_node_builder_of_another_graph_registers_where_it_is_built() {
    let mut first = Graph::new("first");
    let mut second = Graph::new("second");
    let builder: Node = first.node("n").op("Relu").input("x");
    let _ = builder.build(&mut second.bag);
    assert!(first.bag.nodes.is_empty());
    assert_eq!(second.bag.nodes.len(), 1);
}

#[test]
fn what_a_node_provides_becomes_an_output() {
    let mut graph = Graph::new("g");
    let x = graph.input("X").node(&mut graph.bag);
    let root = x.sqrt(&mut graph.bag).with_name("root", &mut graph.bag);
    let built = graph
        .output_of(&root)
        .output_of_typed(&x, DataType::Float)
        .build()
        .unwrap();
    assert_eq!(built.output.len(), 2);
    assert_eq!(built.output[0], ValueInfoProto::named("root0"));
    assert_eq!(built.output[1].name, "X");
    assert_eq!(built.output[1].typ, Some(TypeProto::of(DataType::Float)));
}
