use onnx_helpers::builder::{Bag, Graph, Marker, Value};
use onnx_helpers::nodes::Place;
use onnx_helpers::proto::{DataType, Dimension, NodeProto, TypeProto, ValueInfoProto};

#[test]
fn a_value_without_settings() {
    let value = Value::new("v").build();
    assert_eq!(
        value,
        ValueInfoProto {
            name: "v".to_string(),
            typ: Some(TypeProto { denotation: String::new(), elem_type: 0, shape: Some(vec![]) }),
            doc_string: String::new(),
        }
    );
    let value = Value::default().build();
    assert_eq!(value.name, "");
}

#[test]
fn a_value_with_every_setting() {
    let value = Value::new("v")
        .name("w")
        .typed(DataType::Int64)
        .dim(Dimension::from(1))
        .dim(Dimension::from("batch".to_string()))
        .doc_string("about")
        .build();
    assert_eq!(value.name, "w");
    assert_eq!(value.doc_string, "about");
    let typ = value.typ.unwrap();
    assert_eq!(typ.elem_type, 7);
    assert_eq!(
        typ.shape,
        Some(vec![Dimension::Value(1), Dimension::Param("batch".to_string())])
    );
}

#[test]
fn shape_replaces_and_dim_appends() {
    let value = Value::new("v")
        .dim(Dimension::Value(9))
        .shape(vec![Dimension::Value(1), Dimension::Value(2)])
        .dim(Dimension::Value(3))
        .build();
    let shape = value.typ.unwrap().shape.unwrap();
    assert_eq!(shape, vec![Dimension::Value(1), Dimension::Value(2), Dimension::Value(3)]);
}

#[test]
fn the_stand_in_of_an_input() {
    let mut graph = Graph::new("g");
    let builder = graph.input("X").typed(DataType::Float).dim(Dimension::from(1));
    let want = builder.clone().build();
    let node = builder.node(&mut graph.bag);
    assert!(node.bagged);
    let mut record = NodeProto::default();
    record.name = "X".to_string();
    record.output = vec!["XO".to_string()];
    match &node.place {
        Place::Held(p) => assert_eq!(p, &record),
        Place::Listed(_) => panic!("the bag does not list the stand-in of a value"),
    }
    assert!(graph.bag.nodes.is_empty());
    assert_eq!(graph.bag.inputs, vec![want]);
    assert!(graph.bag.outputs.is_empty());
    assert_eq!(node.select_output(&graph.bag), "X");
}

#[test]
fn the_stand_in_of_an_output() {
    let mut graph = Graph::new("g");
    let node = graph.output("Y").node(&mut graph.bag);
    assert!(graph.bag.inputs.is_empty());
    assert_eq!(graph.bag.outputs.len(), 1);
    assert_eq!(graph.bag.outputs[0].name, "Y");
    assert_eq!(node.name(&graph.bag), "Y");
    let built = graph.build().unwrap();
    assert!(built.node.is_empty());
    assert_eq!(built.output.len(), 1);
}

#[test]
fn a_marked_value_registers_in_any_bag() {
    let mut bag = Bag::new();
    let mut value = Value::new("v");
    value.marker = Some(Marker::Output);
    let _ = value.node(&mut bag);
    assert_eq!(bag.outputs.len(), 1);
    let into: ValueInfoProto = Value::new("v").into();
    assert_eq!(into, Value::new("v").build());
}
