use onnx_helpers::attrs::Attribute;
use onnx_helpers::builder::{Bag, Graph, Node};
use onnx_helpers::nodes::Place;
use onnx_helpers::proto::NodeProto;

fn texts(parts: &[&str]) -> Vec<String> {
    parts.iter().map(|p| p.to_string()).collect()
}

#[test]
fn default_name_with_two_operands() {
    let proto = Node::new("Add").input("a").input("b").into_proto();
    assert_eq!(proto.name, "a_Add_b_");
    assert_eq!(proto.output, texts(&["a_Add_b_O"]));
    assert_eq!(proto.input, texts(&["a", "b"]));
    assert_eq!(proto.op_type, "Add");
    assert_eq!(proto.domain, "");
    assert_eq!(proto.doc_string, "");
    assert!(proto.attribute.is_empty());
}

#[test]
fn default_name_with_two_operands_and_attributes() {
    let proto = Node::new("Gemm")
        .input("a")
        .input("b")
        .attribute("alpha", Attribute::Int(1))
        .attribute("mode", Attribute::String("x".to_string()))
        .into_proto();
    assert_eq!(proto.name, "a_Gemm_b_alpha_int_1_mode_string_x");
    assert_eq!(proto.output, texts(&["a_Gemm_b_alpha_int_1_mode_string_xO"]));
    assert_eq!(proto.attribute.len(), 2);
    assert_eq!(proto.attribute[0].name, "alpha");
    assert_eq!(proto.attribute[0].i, 1);
    assert_eq!(proto.attribute[1].name, "mode");
    assert_eq!(proto.attribute[1].s, b"x".to_vec());
}

#[test]
fn default_name_with_other_numbers_of_operands() {
    assert_eq!(Node::new("Relu").input("x").into_proto().name, "SRelu_x_Relu_E");
    assert_eq!(Node::new("Rand").into_proto().name, "SRand__Rand_E");
    assert_eq!(
        Node::new("Concat")
            .inputs(texts(&["a", "b", "c"]))
            .attribute("axis", Attribute::Int(0))
            .into_proto()
            .name,
        "SConcat_a_b_c_Concat_axis_int_0E"
    );
    assert_eq!(
        Node::new("ReduceSum")
            .input("x")
            .attribute("axes", Attribute::Ints(vec![0, 1]))
            .attribute("keepdims", Attribute::from(false))
            .into_proto()
            .name,
        "SReduceSum_x_ReduceSum_axes_ints_0_1_keepdims_int_0E"
    );
}

#[test]
fn default_name_method_agrees_with_the_built_name() {
    let builder = Node::new("Mul").input("p").input("q").attribute("k", Attribute::Int(2));
    let name = builder.default_name();
    assert_eq!(name, "p_Mul_q_k_int_2");
    assert_eq!(builder.into_proto().name, name);
}

#[test]
fn given_name_and_outputs_are_kept() {
    let proto = Node::new("Split")
        .name("parts")
        .input("x")
        .output("left")
        .output("right")
        .domain("custom")
        .doc_string("splits")
        .into_proto();
    assert_eq!(proto.name, "parts");
    assert_eq!(proto.output, texts(&["left", "right"]));
    assert_eq!(proto.domain, "custom");
    assert_eq!(proto.doc_string, "splits");

    let proto = Node::new("Relu").name("act").input("x").into_proto();
    assert_eq!(proto.name, "act");
    assert_eq!(proto.output, texts(&["actO"]));

    let proto = Node::new("Relu").input("x").outputs(texts(&["y"])).into_proto();
    assert_eq!(proto.name, "SRelu_x_Relu_E");
    assert_eq!(proto.output, texts(&["y"]));
}

#[test]
fn named_builder_has_no_operation() {
    let proto = Node::named("X").into_proto();
    assert_eq!(proto.name, "X");
    assert_eq!(proto.op_type, "");
    assert!(proto.input.is_empty());
    assert_eq!(proto.output, texts(&["XO"]));
    let proto = Node::named("X").op("Identity").into_proto();
    assert_eq!(proto.op_type, "Identity");
    assert_eq!(proto.name, "X");
}

#[test]
fn setters_replace_and_inserters_append() {
    let builder = Node::new("A").name("one").name("two").op("B").input("x").inputs(texts(&["y", "z"]));
    assert_eq!(builder.op_type, "B");
    assert_eq!(builder.name, Some("two".to_string()));
    assert_eq!(builder.inputs, texts(&["x", "y", "z"]));
    let builder = builder.output("o").outputs(texts(&["p"]));
    assert_eq!(builder.outputs, texts(&["o", "p"]));
    assert!(!builder.bagged);
    let fresh = Node::default();
    assert_eq!(fresh.op_type, "");
    assert!(fresh.name.is_none() && fresh.inputs.is_empty() && fresh.attributes.is_empty());
}

#[test]
fn names_are_determined_by_the_content() {
    let first = Node::new("Add").input("x").input("y").into_proto();
    let again = Node::new("Add").input("x").input("y").into_proto();
    assert_eq!(first.name, again.name);
    assert_eq!(first.output, again.output);
    assert_eq!(first, again);
    let other = Node::new("Add").input("y").input("x").into_proto();
    assert_ne!(first.name, other.name);
    let with = Node::new("Add").input("x").input("y").attribute("k", Attribute::Int(1)).into_proto();
    assert_ne!(first.name, with.name);
}

#[test]
fn every_built_record_names_an_output() {
    for proto in [
        Node::default().into_proto(),
        Node::new("Op").into_proto(),
        Node::named("n").into_proto(),
        Node::new("Op").input("a").input("b").into_proto(),
    ] {
        assert!(!proto.output.is_empty());
    }
}

#[test]
fn build_of_a_free_builder_leaves_the_bag_alone() {
    let mut bag = Bag::new();
    let node = Node::new("Relu").input("x").build(&mut bag);
    assert!(bag.nodes.is_empty());
    assert!(!node.bagged);
    match node.place {
        Place::Held(p) => assert_eq!(p.name, "SRelu_x_Relu_E"),
        Place::Listed(_) => panic!("a free node holds its record"),
    }
}

#[test]
fn build_of_a_graph_builder_registers_the_node() {
    let mut graph = Graph::new("g");
    let builder = graph.node("mine").op("Relu").input("x");
    assert!(builder.bagged);
    let node = builder.build(&mut graph.bag);
    assert!(node.bagged);
    assert!(matches!(node.place, Place::Listed(0)));
    assert_eq!(graph.bag.nodes.len(), 1);
    let want: NodeProto = Node::new("Relu").name("mine").input("x").into_proto();
    assert_eq!(graph.bag.nodes[0], want);
    assert_eq!(node.name(&graph.bag), "mine");
    assert_eq!(node.select_output(&graph.bag), "mineO");
}
