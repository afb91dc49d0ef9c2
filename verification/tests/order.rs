use onnx_helpers::builder::dedup::{dedup_nodes, dedup_values};
use onnx_helpers::builder::order::{arrange, sort_nodes};
use onnx_helpers::builder::BuildError;
use onnx_helpers::proto::{NodeProto, ValueInfoProto};

fn texts(parts: &[&str]) -> Vec<String> {
    parts.iter().map(|p| p.to_string()).collect()
}

fn proto(name: &str, input: &[&str], output: &[&str]) -> NodeProto {
    let mut p = NodeProto::default();
    p.name = name.to_string();
    p.op_type = "Op".to_string();
    p.input = texts(input);
    p.output = texts(output);
    p
}

fn names(nodes: &[NodeProto]) -> Vec<String> {
    nodes.iter().map(|n| n.name.clone()).collect()
}

fn assert_ordered(nodes: &[NodeProto]) {
    for (at, node) in nodes.iter().enumerate() {
        for input in node.input.iter() {
            for (from, other) in nodes.iter().enumerate() {
                if &other.name == input || other.output.contains(input) {
                    assert!(from < at, "{} consumes {} of {}", node.name, input, other.name);
                }
            }
        }
    }
}

#[test]
fn a_chain_given_backwards_is_turned_round() {
    let nodes = vec![
        proto("n3", &["b"], &["c"]),
        proto("n2", &["a"], &["b"]),
        proto("n1", &[], &["a"]),
    ];
    let sorted = sort_nodes(nodes).unwrap();
    assert_eq!(names(&sorted), texts(&["n1", "n2", "n3"]));
    assert_eq!(sorted[2], proto("n3", &["b"], &["c"]));
    assert_ordered(&sorted);
}

#[test]
fn a_chain_given_forwards_stays() {
    let nodes = vec![
        proto("n1", &["x"], &["a"]),
        proto("n2", &["a"], &["b"]),
        proto("n3", &["b", "a"], &["c"]),
    ];
    let sorted = sort_nodes(nodes).unwrap();
    assert_eq!(names(&sorted), texts(&["n1", "n2", "n3"]));
}

#[test]
fn nodes_that_do_not_depend_on_each_other() {
    let nodes = vec![proto("p", &[], &["x"]), proto("q", &[], &["y"])];
    let sorted = sort_nodes(nodes).unwrap();
    assert_eq!(names(&sorted), texts(&["q", "p"]));
    assert_ordered(&sorted);
}

#[test]
fn a_node_consumed_by_its_name_comes_first() {
    let nodes = vec![proto("user", &["X"], &["u"]), proto("X", &[], &["XO"])];
    let sorted = sort_nodes(nodes).unwrap();
    assert_eq!(names(&sorted), texts(&["X", "user"]));
}

#[test]
fn a_diamond_is_ordered() {
    let nodes = vec![
        proto("join", &["l", "r"], &["out"]),
        proto("left", &["s"], &["l"]),
        proto("right", &["s"], &["r"]),
        proto("source", &["in"], &["s"]),
    ];
    let sorted = sort_nodes(nodes).unwrap();
    assert_eq!(sorted.len(), 4);
    assert_eq!(sorted[0].name, "source");
    assert_eq!(sorted[3].name, "join");
    assert_ordered(&sorted);
}

#[test]
fn a_node_without_links_is_kept() {
    let nodes = vec![proto("b", &["x"], &["y"]), proto("lonely", &[], &[]), proto("a", &[], &["x"])];
    let sorted = sort_nodes(nodes).unwrap();
    let mut got = names(&sorted);
    got.sort();
    assert_eq!(got, texts(&["a", "b", "lonely"]));
    assert_ordered(&sorted);
}

#[test]
fn nothing_to_sort() {
    assert_eq!(sort_nodes(vec![]), Ok(vec![]));
    let one = sort_nodes(vec![proto("a", &["x"], &["y"])]).unwrap();
    assert_eq!(one, vec![proto("a", &["x"], &["y"])]);
}

#[test]
fn repeated_links_count_once() {
    let nodes = vec![proto("b", &["x", "x"], &["y", "y"]), proto("a", &["w"], &["x", "x"])];
    let sorted = sort_nodes(nodes).unwrap();
    assert_eq!(names(&sorted), texts(&["a", "b"]));
}

#[test]
fn nodes_of_one_name_stay_together_in_their_order() {
    let mut second = proto("a", &[], &["x"]);
    second.doc_string = "second".to_string();
    let nodes = vec![proto("b", &["x"], &["y"]), proto("a", &[], &["x"]), second.clone()];
    let sorted = sort_nodes(nodes).unwrap();
    assert_eq!(sorted, vec![proto("a", &[], &["x"]), second, proto("b", &["x"], &["y"])]);
}

#[test]
fn a_node_that_consumes_its_output_is_refused() {
    assert_eq!(sort_nodes(vec![proto("a", &["x"], &["x"])]), Err(BuildError::Cycle));
}

#[test]
fn a_node_that_consumes_its_name_is_refused() {
    assert_eq!(sort_nodes(vec![proto("a", &["a"], &["x"])]), Err(BuildError::Cycle));
    assert_eq!(sort_nodes(vec![proto("a", &[], &["a"])]), Err(BuildError::Cycle));
}

#[test]
fn a_ring_of_nodes_is_refused() {
    let nodes = vec![
        proto("a", &["z"], &["x"]),
        proto("free", &[], &["f"]),
        proto("b", &["x"], &["y"]),
        proto("c", &["y", "f"], &["z"]),
    ];
    assert_eq!(sort_nodes(nodes), Err(BuildError::Cycle));
}

#[test]
fn arrange_follows_the_order() {
    let nodes = vec![proto("a", &[], &[]), proto("b", &[], &[]), proto("c", &[], &[])];
    let arranged = arrange(nodes.clone(), &texts(&["c", "x", "a", "b"]));
    assert_eq!(names(&arranged), texts(&["c", "a", "b"]));
    let arranged = arrange(nodes.clone(), &texts(&["b", "b", "a"]));
    assert_eq!(names(&arranged), texts(&["b", "a"]));
    let arranged = arrange(nodes.clone(), &texts(&[]));
    assert!(arranged.is_empty());
    let arranged = arrange(vec![], &texts(&["a"]));
    assert!(arranged.is_empty());
}

#[test]
fn arrange_keeps_nodes_of_one_name_in_their_order() {
    let mut first = proto("a", &[], &[]);
    first.doc_string = "first".to_string();
    let mut second = proto("a", &[], &[]);
    second.doc_string = "second".to_string();
    let nodes = vec![first.clone(), proto("b", &[], &[]), second.clone()];
    let arranged = arrange(nodes, &texts(&["b", "a", "b"]));
    assert_eq!(arranged, vec![proto("b", &[], &[]), first, second]);
}

#[test]
fn dedup_keeps_the_first_of_each_name() {
    let mut late = proto("a", &["late"], &[]);
    late.doc_string = "late".to_string();
    let nodes = vec![
        proto("a", &["early"], &[]),
        proto("b", &[], &[]),
        late,
        proto("c", &[], &[]),
        proto("b", &["again"], &[]),
        proto("a", &["last"], &[]),
    ];
    let kept = dedup_nodes(nodes);
    assert_eq!(
        kept,
        vec![proto("a", &["early"], &[]), proto("b", &[], &[]), proto("c", &[], &[])]
    );
    assert!(dedup_nodes(vec![]).is_empty());
    let again = dedup_nodes(kept.clone());
    assert_eq!(again, kept);
}

#[test]
fn dedup_of_values_keeps_the_first_of_each_name() {
    let mut typed = ValueInfoProto::named("x");
    typed.doc_string = "first".to_string();
    let values = vec![
        typed.clone(),
        ValueInfoProto::named("y"),
        ValueInfoProto::named("x"),
        ValueInfoProto::named("y"),
    ];
    assert_eq!(dedup_values(values), vec![typed, ValueInfoProto::named("y")]);
}
