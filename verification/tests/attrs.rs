use onnx_helpers::attrs::{make_attribute, Attribute, AttributeType, FloatValue};
use onnx_helpers::nodes::Axes;
use onnx_helpers::proto::{AttributeProto, DataType, GraphProto, TensorProto};

fn float(v: f32) -> FloatValue {
    FloatValue { bits: v.to_bits(), text: format!("{:.2}", v) }
}

fn list_float(v: f32) -> FloatValue {
    FloatValue { bits: v.to_bits(), text: format!("{:?}", v) }
}

fn tensor(name: &str) -> TensorProto {
    let mut t = TensorProto::of_i64(5);
    t.name = name.to_string();
    t
}

fn graph(name: &str) -> GraphProto {
    let mut g = GraphProto::default();
    g.name = name.to_string();
    g
}

fn bare(name: &str) -> AttributeProto {
    AttributeProto::named(name.to_string())
}

#[test]
fn attribute_type_codes() {
    assert_eq!(AttributeType::Undefined.code(), 0);
    assert_eq!(AttributeType::Float.code(), 1);
    assert_eq!(AttributeType::Int.code(), 2);
    assert_eq!(AttributeType::String.code(), 3);
    assert_eq!(AttributeType::Tensor.code(), 4);
    assert_eq!(AttributeType::Graph.code(), 5);
    assert_eq!(AttributeType::Floats.code(), 6);
    assert_eq!(AttributeType::Ints.code(), 7);
    assert_eq!(AttributeType::Strings.code(), 8);
    assert_eq!(AttributeType::Tensors.code(), 9);
    assert_eq!(AttributeType::Graphs.code(), 10);
}

#[test]
fn data_type_codes() {
    let all = [
        DataType::Undefined,
        DataType::Float,
        DataType::Uint8,
        DataType::Int8,
        DataType::Uint16,
        DataType::Int16,
        DataType::Int32,
        DataType::Int64,
        DataType::String,
        DataType::Bool,
        DataType::Float16,
        DataType::Double,
        DataType::Uint32,
        DataType::Uint64,
        DataType::Complex64,
        DataType::Complex128,
        DataType::Bfloat16,
    ];
    for (at, t) in all.iter().enumerate() {
        assert_eq!(t.code() as usize, at);
    }
    assert_eq!(DataType::default(), DataType::Undefined);
}

#[test]
fn empty_attribute_record() {
    let a = bare("n");
    assert_eq!(a.name, "n");
    assert_eq!(a.doc_string, "");
    assert_eq!(a.kind, 0);
    assert_eq!(a.f, 0);
    assert_eq!(a.i, 0);
    assert!(a.s.is_empty());
    assert!(a.t.is_none());
    assert!(a.g.is_none());
    assert!(a.floats.is_empty());
    assert!(a.ints.is_empty());
    assert!(a.strings.is_empty());
    assert!(a.tensors.is_empty());
    assert!(a.graphs.is_empty());
    assert_eq!(AttributeProto::default(), bare(""));
}

#[test]
fn make_attribute_of_numbers() {
    let mut want = bare("alpha");
    want.f = 0.5f32.to_bits();
    want.kind = 1;
    assert_eq!(make_attribute("alpha".to_string(), Attribute::Float(float(0.5))), want);

    let mut want = bare("scales");
    want.floats = vec![1.0f32.to_bits(), 2.5f32.to_bits()];
    want.kind = 6;
    assert_eq!(
        make_attribute(
            "scales".to_string(),
            Attribute::Floats(vec![list_float(1.0), list_float(2.5)])
        ),
        want
    );

    let mut want = bare("axis");
    want.i = -3;
    want.kind = 2;
    assert_eq!(make_attribute("axis".to_string(), Attribute::Int(-3)), want);

    let mut want = bare("axes");
    want.ints = vec![0, 2];
    want.kind = 7;
    assert_eq!(make_attribute("axes".to_string(), Attribute::Ints(vec![0, 2])), want);
}

#[test]
fn make_attribute_of_text_and_bytes() {
    let mut want = bare("raw");
    want.s = vec![0, 255, 7];
    want.kind = 3;
    assert_eq!(make_attribute("raw".to_string(), Attribute::Bytes(vec![0, 255, 7])), want);

    let mut want = bare("mode");
    want.s = "lin\u{e9}ar".as_bytes().to_vec();
    want.kind = 3;
    assert_eq!(
        make_attribute("mode".to_string(), Attribute::String("lin\u{e9}ar".to_string())),
        want
    );

    let mut want = bare("modes");
    want.strings = vec![b"a".to_vec(), b"".to_vec(), "\u{4e2d}".as_bytes().to_vec()];
    want.kind = 8;
    assert_eq!(
        make_attribute(
            "modes".to_string(),
            Attribute::Strings(vec!["a".to_string(), "".to_string(), "\u{4e2d}".to_string()])
        ),
        want
    );
}

#[test]
fn make_attribute_of_tensors_and_graphs() {
    let mut want = bare("value");
    want.t = Some(tensor("t"));
    want.kind = 4;
    assert_eq!(make_attribute("value".to_string(), Attribute::Tensor(tensor("t"))), want);

    let mut want = bare("values");
    want.tensors = vec![tensor("a"), tensor("b")];
    want.kind = 9;
    assert_eq!(
        make_attribute("values".to_string(), Attribute::Tensors(vec![tensor("a"), tensor("b")])),
        want
    );

    let mut want = bare("body");
    want.g = Some(graph("g"));
    want.kind = 5;
    assert_eq!(make_attribute("body".to_string(), Attribute::Graph(graph("g"))), want);

    let mut want = bare("branches");
    want.graphs = vec![graph("g"), graph("h")];
    want.kind = 10;
    assert_eq!(
        make_attribute("branches".to_string(), Attribute::Graphs(vec![graph("g"), graph("h")])),
        want
    );
}

#[test]
fn render_numbers() {
    assert_eq!(Attribute::Float(float(0.5)).render(), "float_0.50");
    assert_eq!(Attribute::Float(float(-1.0)).render(), format!("float_{:.2}", -1.0f32));
    let list = vec![1.0f32, 2.5];
    let shown = Attribute::Floats(list.iter().map(|v| list_float(*v)).collect()).render();
    assert_eq!(shown, "floats_[1.0, 2.5]");
    assert_eq!(shown, format!("floats_{:?}", list));
    assert_eq!(Attribute::Floats(vec![]).render(), "floats_[]");
    assert_eq!(Attribute::Int(1).render(), "int_1");
    assert_eq!(Attribute::Int(-3).render(), "int_-3");
    assert_eq!(Attribute::Ints(vec![1, 2, 3]).render(), "ints_1_2_3");
    assert_eq!(Attribute::Ints(vec![-1]).render(), "ints_-1");
    assert_eq!(Attribute::Ints(vec![]).render(), "ints_");
}

#[test]
fn render_text_and_bytes() {
    assert_eq!(Attribute::Bytes(vec![1, 2]).render(), "bytes_[1, 2]");
    assert_eq!(Attribute::Bytes(vec![]).render(), "bytes_[]");
    assert_eq!(Attribute::String("abc".to_string()).render(), "string_abc");
    assert_eq!(Attribute::String(String::new()).render(), "string_");
    assert_eq!(
        Attribute::Strings(vec!["a".to_string(), "b".to_string()]).render(),
        "strings_a_b"
    );
}

#[test]
fn render_tensors_and_graphs_by_name() {
    assert_eq!(Attribute::Tensor(tensor("t")).render(), "tensor_t");
    assert_eq!(Attribute::Tensors(vec![tensor("a"), tensor("b")]).render(), "tensors_a_b");
    assert_eq!(Attribute::Graph(graph("g")).render(), "graph_g");
    assert_eq!(Attribute::Graphs(vec![graph("g"), graph("h")]).render(), "graphs_g_h");
    assert_eq!(Attribute::Graphs(vec![]).render(), "graphs_");
}

#[test]
fn attributes_from_plain_values() {
    assert_eq!(Attribute::from(true), Attribute::Int(1));
    assert_eq!(Attribute::from(false), Attribute::Int(0));
    assert_eq!(Attribute::from(7i64), Attribute::Int(7));
    assert_eq!(Attribute::from(vec![1i64, 2]), Attribute::Ints(vec![1, 2]));
    assert_eq!(Attribute::from(Axes(vec![1, 2])), Attribute::Ints(vec![1, 2]));
    assert_eq!(Attribute::from(Axes::from(3)), Attribute::Ints(vec![3]));
    assert_eq!(Attribute::from("x"), Attribute::String("x".to_string()));
    assert_eq!(Attribute::from("x".to_string()), Attribute::String("x".to_string()));
    assert_eq!(
        Attribute::from(vec!["x".to_string()]),
        Attribute::Strings(vec!["x".to_string()])
    );
    assert_eq!(
        Attribute::from(vec!["x", "y"]),
        Attribute::Strings(vec!["x".to_string(), "y".to_string()])
    );
    assert_eq!(Attribute::from(vec![1u8, 2]), Attribute::Bytes(vec![1, 2]));
    assert_eq!(Attribute::from(tensor("t")), Attribute::Tensor(tensor("t")));
    assert_eq!(Attribute::from(vec![tensor("t")]), Attribute::Tensors(vec![tensor("t")]));
    assert_eq!(Attribute::from(graph("g")), Attribute::Graph(graph("g")));
    assert_eq!(Attribute::from(vec![graph("g")]), Attribute::Graphs(vec![graph("g")]));
    assert_eq!(Attribute::from(float(1.0)), Attribute::Float(float(1.0)));
    assert_eq!(Attribute::from(vec![float(1.0)]), Attribute::Floats(vec![float(1.0)]));
}

#[test]
fn attribute_clone_keeps_the_value() {
    let all = vec![
        Attribute::Float(float(1.5)),
        Attribute::Floats(vec![list_float(1.5)]),
        Attribute::Int(4),
        Attribute::Ints(vec![4, 5]),
        Attribute::Bytes(vec![4]),
        Attribute::String("s".to_string()),
        Attribute::Strings(vec!["s".to_string()]),
        Attribute::Tensor(tensor("t")),
        Attribute::Tensors(vec![tensor("t")]),
        Attribute::Graph(graph("g")),
        Attribute::Graphs(vec![graph("g")]),
    ];
    for a in all.iter() {
        assert_eq!(&a.clone(), a);
    }
}

#[test]
fn axes_from_one_or_many() {
    assert_eq!(Axes::from(1), Axes(vec![1]));
    assert_eq!(Axes::single(-1), Axes(vec![-1]));
    assert_eq!(Axes::from(vec![0, 2]), Axes(vec![0, 2]));
    assert_eq!(Axes::from(vec![]), Axes(vec![]));
}

#[test]
fn tensors_from_plain_values() {
    let t = TensorProto::of_i64(9);
    assert_eq!(t.dims, vec![1]);
    assert_eq!(t.int64_data, vec![9]);
    assert_eq!(t.data_type, 7);
    let t = TensorProto::of_i64s(vec![1, 2, 3]);
    assert_eq!(t.dims, vec![3]);
    assert_eq!(t.int64_data, vec![1, 2, 3]);
    assert_eq!(t.data_type, 7);
    let t = TensorProto::of_i32(-9);
    assert_eq!((t.dims.clone(), t.int32_data.clone(), t.data_type), (vec![1], vec![-9], 6));
    let t = TensorProto::of_i32s(vec![]);
    assert_eq!((t.dims.clone(), t.int32_data.clone(), t.data_type), (vec![0], vec![], 6));
    let t = TensorProto::of_u64(9);
    assert_eq!((t.dims.clone(), t.uint64_data.clone(), t.data_type), (vec![1], vec![9], 13));
    let t = TensorProto::of_u64s(vec![1, 2]);
    assert_eq!((t.dims.clone(), t.uint64_data.clone(), t.data_type), (vec![2], vec![1, 2], 13));
    let t = TensorProto::of_float_bits(2.0f32.to_bits());
    assert_eq!((t.dims.clone(), t.float_data.clone(), t.data_type), (vec![1], vec![0x40000000], 1));
    let t = TensorProto::of_floats_bits(vec![1.0f32.to_bits(), 2.0f32.to_bits()]);
    assert_eq!(t.dims, vec![2]);
    assert_eq!(t.float_data, vec![0x3f800000, 0x40000000]);
    assert_eq!(t.data_type, 1);
    let t = TensorProto::of_double_bits(1.0f64.to_bits());
    assert_eq!((t.dims.clone(), t.double_data.clone(), t.data_type), (vec![1], vec![1.0f64.to_bits()], 11));
    let t = TensorProto::of_doubles_bits(vec![1.0f64.to_bits()]);
    assert_eq!((t.dims.clone(), t.double_data.clone(), t.data_type), (vec![1], vec![1.0f64.to_bits()], 11));
    let empty = TensorProto::default();
    assert!(empty.dims.is_empty() && empty.name.is_empty() && empty.raw_data.is_empty());
    assert_eq!(empty.data_type, 0);
}
