use onnx_helpers::builder::Graph;
use onnx_helpers::nodes::Axes;
use onnx_helpers::proto::{
    AttributeProto, DataType, Dimension, GraphProto, NodeProto, TensorProto, TypeProto,
    ValueInfoProto,
};

fn position(graph: &GraphProto, name: &str) -> usize {
    graph
        .node
        .iter()
        .position(|n| n.name == name)
        .unwrap_or_else(|| panic!("no node named {}", name))
}

fn producer(graph: &GraphProto, id: &str) -> Option<usize> {
    graph
        .node
        .iter()
        .position(|n| n.name == id || n.output.iter().any(|o| o == id))
}

fn assert_ordered(graph: &GraphProto) {
    for (at, node) in graph.node.iter().enumerate() {
        for input in node.input.iter() {
            if let Some(from) = producer(graph, input) {
                assert!(from < at, "{} is consumed at {} but provided at {}", input, at, from);
            }
        }
    }
}

#[test]
fn add_scenario() {
    let mut graph = Graph::new("add");
    let x = graph
        .input("X")
        .typed(DataType::Float)
        .dim(Dimension::from(1))
        .dim(Dimension::from(10))
        .node(&mut graph.bag);
    let y = graph
        .input("Y")
        .typed(DataType::Float)
        .dim(Dimension::from(1))
        .dim(Dimension::from(10))
        .node(&mut graph.bag);
    let sum = x.add(&y, &mut graph.bag);
    assert_eq!(sum.name(&graph.bag), "X_Add_Y_");
    assert_eq!(sum.select_output(&graph.bag), "X_Add_Y_O");
    let z = sum.with_name("Z", &mut graph.bag);
    let out = ValueInfoProto::named(&z.select_output(&graph.bag));
    let model = graph.outputs(out).model().unwrap().build();

    let graph = model.graph.expect("a model holds its graph");
    assert_eq!(graph.name, "add");
    assert_eq!(graph.node.len(), 1);
    assert_eq!(graph.node[0].op_type, "Add");
    assert_eq!(graph.node[0].name, "Z");
    assert_eq!(graph.node[0].input, vec!["X".to_string(), "Y".to_string()]);
    assert_eq!(graph.node[0].output, vec!["Z0".to_string()]);
    assert_eq!(graph.input.len(), 2);
    assert_eq!(graph.input[0].name, "X");
    assert_eq!(graph.input[1].name, "Y");
    let typ = graph.input[0].typ.as_ref().expect("inputs are typed");
    assert_eq!(typ.elem_type, 1);
    let shape = typ.shape.as_ref().expect("inputs have a shape");
    assert_eq!(shape.len(), 2);
    assert!(matches!(shape[0], Dimension::Value(1)));
    assert!(matches!(shape[1], Dimension::Value(10)));
    assert_eq!(graph.output.len(), 1);
    assert_eq!(graph.output[0].name, "Z0");
    assert_eq!(model.opset_import.len(), 1);
    assert_eq!(model.opset_import[0].domain, "");
    assert_eq!(model.opset_import[0].version, 11);
}

fn mean_reverse() -> GraphProto {
    let mut graph = Graph::new("reverse");
    let x = graph
        .input("X")
        .typed(DataType::Float)
        .dim(Dimension::from(1))
        .dim(Dimension::from(6))
        .node(&mut graph.bag);
    let two = graph.constant(Some("two"), TensorProto::of_float_bits(2.0f32.to_bits()));
    let mean = x.mean(Axes::from(1), true, &mut graph.bag);
    let out = x
        .sub(&mean, &mut graph.bag)
        .neg(&mut graph.bag)
        .mul(&two, &mut graph.bag)
        .add(&x, &mut graph.bag);
    let info = ValueInfoProto::named(&out.select_output(&graph.bag));
    graph.outputs_typed(info, DataType::Float).build().unwrap()
}

#[test]
fn mean_reverse_scenario() {
    let graph = mean_reverse();
    let mean = "SReduceMean_X_ReduceMean_axes_ints_1_keepdims_int_1E";
    let sub = format!("X_Sub_{}O_", mean);
    let neg = format!("SNeg_{}O_Neg_E", sub);
    let mul = format!("{}O_Mul_twoO_", neg);
    let add = format!("{}O_Add_X_", mul);

    assert_eq!(graph.node.len(), 6);
    let ops: Vec<&str> = ["ReduceMean", "Sub", "Neg", "Mul", "Add", "Constant"].to_vec();
    for op in ops {
        assert_eq!(graph.node.iter().filter(|n| n.op_type == op).count(), 1, "{}", op);
    }
    assert!(position(&graph, mean) < position(&graph, &sub));
    assert!(position(&graph, &sub) < position(&graph, &neg));
    assert!(position(&graph, &neg) < position(&graph, &mul));
    assert!(position(&graph, "two") < position(&graph, &mul));
    assert!(position(&graph, &mul) < position(&graph, &add));
    assert_ordered(&graph);

    let node = &graph.node[position(&graph, &sub)];
    assert_eq!(node.input, vec!["X".to_string(), format!("{}O", mean)]);
    assert_eq!(node.output, vec![format!("{}O", sub)]);
    let node = &graph.node[position(&graph, mean)];
    assert_eq!(node.input, vec!["X".to_string()]);
    assert_eq!(node.attribute.len(), 2);
    assert_eq!(node.attribute[0].name, "axes");
    assert_eq!(node.attribute[0].kind, 7);
    assert_eq!(node.attribute[0].ints, vec![1]);
    assert_eq!(node.attribute[1].name, "keepdims");
    assert_eq!(node.attribute[1].kind, 2);
    assert_eq!(node.attribute[1].i, 1);
    let node = &graph.node[position(&graph, &add)];
    assert_eq!(node.input, vec![format!("{}O", mul), "X".to_string()]);

    assert_eq!(graph.input.len(), 1);
    assert_eq!(graph.input[0].name, "X");
    assert_eq!(graph.output.len(), 1);
    assert_eq!(graph.output[0].name, format!("{}O", add));
    let typ = graph.output[0].typ.as_ref().expect("the output was typed");
    assert_eq!(typ.elem_type, 1);
    assert!(typ.shape.is_none());
}

fn operation(op: &str, name: &str, input: &[&str]) -> NodeProto {
    let mut node = NodeProto::default();
    node.op_type = op.to_string();
    node.name = name.to_string();
    node.input = input.iter().map(|i| i.to_string()).collect();
    node.output = vec![format!("{}O", name)];
    node
}

fn prev_output() -> GraphProto {
    let mean = "SReduceMean_X_ReduceMean_axes_ints_1_keepdims_int_1E";
    let sub = "X_Sub_SReduceMean_X_ReduceMean_axes_ints_1_keepdims_int_1EO_";
    let neg = "SNeg_X_Sub_SReduceMean_X_ReduceMean_axes_ints_1_keepdims_int_1EO_O_Neg_E";
    let mul = "SNeg_X_Sub_SReduceMean_X_ReduceMean_axes_ints_1_keepdims_int_1EO_O_Neg_EO_Mul_twoO_";
    let add =
        "SNeg_X_Sub_SReduceMean_X_ReduceMean_axes_ints_1_keepdims_int_1EO_O_Neg_EO_Mul_twoO_O_Add_X_";

    let mut axes = AttributeProto::named("axes".to_string());
    axes.ints = vec![1];
    axes.kind = 7;
    let mut keepdims = AttributeProto::named("keepdims".to_string());
    keepdims.i = 1;
    keepdims.kind = 2;
    let mut reduce = operation("ReduceMean", mean, &["X"]);
    reduce.attribute = vec![axes, keepdims];

    let mut value = AttributeProto::named("value".to_string());
    value.t = Some(TensorProto {
        dims: vec![1],
        data_type: 1,
        float_data: vec![2.0f32.to_bits()],
        ..TensorProto::default()
    });
    value.kind = 4;
    let mut two = operation("Constant", "two", &[]);
    two.attribute = vec![value];

    GraphProto {
        node: vec![
            reduce,
            operation("Sub", sub, &["X", &format!("{}O", mean)]),
            operation("Neg", neg, &[&format!("{}O", sub)]),
            two,
            operation("Mul", mul, &[&format!("{}O", neg), "twoO"]),
            operation("Add", add, &[&format!("{}O", mul), "X"]),
        ],
        name: "reverse".to_string(),
        initializer: vec![],
        doc_string: String::new(),
        input: vec![ValueInfoProto {
            name: "X".to_string(),
            typ: Some(TypeProto {
                denotation: String::new(),
                elem_type: 1,
                shape: Some(vec![Dimension::Value(1), Dimension::Value(6)]),
            }),
            doc_string: String::new(),
        }],
        output: vec![ValueInfoProto {
            name: format!("{}O", add),
            typ: Some(TypeProto { denotation: String::new(), elem_type: 1, shape: None }),
            doc_string: String::new(),
        }],
    }
}

#[test]
fn compare_with_prev_output() {
    let prev_output = prev_output();
    let mut graph = Graph::new("reverse");
    let x = graph
        .input("X")
        .typed(DataType::Float)
        .dim(Dimension::from(1))
        .dim(Dimension::from(6))
        .node(&mut graph.bag);
    let two = graph.constant(Some("two"), TensorProto::of_float_bits(2.0f32.to_bits()));
    let mean = x.mean(Axes::from(1), true, &mut graph.bag);
    let out = x
        .sub(&mean, &mut graph.bag)
        .neg(&mut graph.bag)
        .mul(&two, &mut graph.bag)
        .add(&x, &mut graph.bag);
    let graph = graph.output_of_typed(&out, DataType::Float);
    let model = graph.model().unwrap().build();

    assert_eq!(model.graph, Some(prev_output));
    assert_eq!(model.ir_version, 6);
    assert_eq!(model.opset_import.len(), 1);
    assert_eq!(model.opset_import[0].version, 11);
}

fn assert_resolved(graph: &GraphProto) {
    for node in graph.node.iter() {
        for input in node.input.iter() {
            let declared = graph.input.iter().any(|v| &v.name == input);
            assert!(
                declared || producer(graph, input).is_some(),
                "{} of {} is provided by nothing",
                input,
                node.name
            );
        }
    }
    for output in graph.output.iter() {
        assert!(producer(graph, &output.name).is_some(), "{} is provided by nothing", output.name);
    }
}

fn assert_names_once(graph: &GraphProto) {
    for (at, node) in graph.node.iter().enumerate() {
        assert_eq!(position(graph, &node.name), at, "{} occurs twice", node.name);
    }
}

fn stddev(graph: &mut Graph, x: &onnx_helpers::nodes::Node) -> onnx_helpers::nodes::Node {
    let two = graph.constant(Some("two"), TensorProto::of_float_bits(2.0f32.to_bits()));
    let bag = &mut graph.bag;
    let power = two.select_output(bag);
    x.sub(&x.mean(Axes::from(1), true, bag), bag)
        .abs(bag)
        .pow(&power, bag)
        .mean(Axes::from(1), true, bag)
        .sqrt(bag)
}

fn reversal(graph: &mut Graph, x: &onnx_helpers::nodes::Node) -> onnx_helpers::nodes::Node {
    let two = graph.constant(Some("two"), TensorProto::of_float_bits(2.0f32.to_bits()));
    let bag = &mut graph.bag;
    x.sub(&x.mean(Axes::from(1), true, bag), bag).neg(bag).mul(&two, bag).add(x, bag)
}

#[test]
fn stddev_scenario() {
    let mut graph = Graph::new("stddev");
    let x = graph
        .input("X")
        .typed(DataType::Float)
        .dim(Dimension::from(1))
        .dim(Dimension::from(6))
        .node(&mut graph.bag);
    let std = stddev(&mut graph, &x).with_name("stddev", &mut graph.bag);
    let built = graph.output_of_typed(&std, DataType::Float).build().unwrap();
    let ops: Vec<&str> = built.node.iter().map(|n| n.op_type.as_str()).collect();
    assert_eq!(ops.len(), 7);
    for op in ["Constant", "ReduceMean", "Sub", "Abs", "Pow", "Sqrt"] {
        assert!(ops.contains(&op), "{}", op);
    }
    assert_eq!(ops.iter().filter(|op| **op == "ReduceMean").count(), 2);
    assert_eq!(built.node.last().unwrap().name, "stddev");
    assert_eq!(built.node.last().unwrap().output, vec!["stddev0".to_string()]);
    assert_eq!(built.output[0].name, "stddev0");
    assert_ordered(&built);
    assert_resolved(&built);
    assert_names_once(&built);
}

#[test]
fn ensemble_scenario() {
    let mut graph = Graph::new("ensemble");
    let x = graph
        .input("X")
        .typed(DataType::Float)
        .dim(Dimension::from(1))
        .dim(Dimension::from(6))
        .node(&mut graph.bag);
    let std = stddev(&mut graph, &x);
    let rev = reversal(&mut graph, &x);
    assert_eq!(graph.bag.nodes.len(), 13);
    let std = std.with_name("stddev", &mut graph.bag);
    let rev = rev.with_name("mean_reverse", &mut graph.bag);
    let built = graph
        .output_of_typed(&std, DataType::Float)
        .output_of_typed(&rev, DataType::Float)
        .build()
        .unwrap();
    assert_eq!(built.node.len(), 10);
    assert_eq!(built.node.iter().filter(|n| n.name == "two").count(), 1);
    assert_eq!(built.node.iter().filter(|n| n.op_type == "Sub").count(), 1);
    assert_eq!(built.output.len(), 2);
    assert_eq!(built.output[0].name, "stddev0");
    assert_eq!(built.output[1].name, "mean_reverse0");
    assert_ordered(&built);
    assert_resolved(&built);
    assert_names_once(&built);
}

#[test]
fn concat_scenario() {
    let mut graph = Graph::new("concat");
    let x = graph
        .input("X")
        .typed(DataType::Float)
        .dim(Dimension::from(1))
        .dim(Dimension::from(6))
        .node(&mut graph.bag);
    let rev = reversal(&mut graph, &x);
    let both = graph.concat(0, &vec![x.clone(), rev]).with_name("concat", &mut graph.bag);
    let built = graph.output_of_typed(&both, DataType::Float).build().unwrap();
    let last = built.node.last().unwrap();
    assert_eq!(last.name, "concat");
    assert_eq!(last.op_type, "Concat");
    assert_eq!(last.input.len(), 2);
    assert_eq!(last.input[0], "X");
    assert_eq!(last.output, vec!["concat0".to_string()]);
    assert_eq!(built.node.len(), 7);
    assert_ordered(&built);
    assert_resolved(&built);
    assert_names_once(&built);
}
