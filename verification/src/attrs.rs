//! Node attributes: the values that can be attached to a node, how they are
//! stored in a record and how they are rendered inside derived names.

use vstd::prelude::*;
use vstd::std_specs::convert::FromSpecImpl;

use crate::nodes::Axes;
use crate::proto::{
    views, AttributeProto, AttributeView, GraphProto, GraphView, TensorProto, TensorView,
};
use crate::text::{
    bracket, bracketed, byte_decimals, byte_decimals_of, decimal, decimal_of_i64, decimals,
    decimals_of, join, joined, texts,
};

verus! {

/// A 32-bit float: its IEEE 754 bit pattern, and the text under which it
/// enters a derived name.
#[derive(Debug, PartialEq)]
pub struct FloatValue {
    pub bits: u32,
    pub text: String,
}

/// View of a [`FloatValue`].
pub struct FloatView {
    pub bits: u32,
    pub text: Seq<char>,
}

impl View for FloatValue {
    type V = FloatView;

    open spec fn view(&self) -> FloatView {
        FloatView { bits: self.bits, text: self.text@ }
    }
}

impl Clone for FloatValue {
    fn clone(&self) -> (r: Self)
        ensures
            r@ == self@,
    {
        FloatValue { bits: self.bits, text: self.text.clone() }
    }
}

/// The value of a node attribute.
#[derive(Debug, PartialEq)]
pub enum Attribute {
    Float(FloatValue),
    Floats(Vec<FloatValue>),
    Int(i64),
    Ints(Vec<i64>),
    Bytes(Vec<u8>),
    String(String),
    Strings(Vec<String>),
    Tensor(TensorProto),
    Tensors(Vec<TensorProto>),
    Graph(GraphProto),
    Graphs(Vec<GraphProto>),
}

/// View of an [`Attribute`].
pub enum AttributeValue {
    Float(FloatView),
    Floats(Seq<FloatView>),
    Int(i64),
    Ints(Seq<i64>),
    Bytes(Seq<u8>),
    String(Seq<char>),
    Strings(Seq<Seq<char>>),
    Tensor(TensorView),
    Tensors(Seq<TensorView>),
    Graph(GraphView),
    Graphs(Seq<GraphView>),
}

impl View for Attribute {
    type V = AttributeValue;

    open spec fn view(&self) -> AttributeValue {
        match self {
            Attribute::Float(v) => AttributeValue::Float(v@),
            Attribute::Floats(v) => AttributeValue::Floats(views(v@)),
            Attribute::Int(v) => AttributeValue::Int(*v),
            Attribute::Ints(v) => AttributeValue::Ints(v@),
            Attribute::Bytes(v) => AttributeValue::Bytes(v@),
            Attribute::String(v) => AttributeValue::String(v@),
            Attribute::Strings(v) => AttributeValue::Strings(texts(v@)),
            Attribute::Tensor(v) => AttributeValue::Tensor(v@),
            Attribute::Tensors(v) => AttributeValue::Tensors(views(v@)),
            Attribute::Graph(v) => AttributeValue::Graph(v@),
            Attribute::Graphs(v) => AttributeValue::Graphs(views(v@)),
        }
    }
}

impl Clone for Attribute {
    fn clone(&self) -> (r: Self)
        ensures
            r@ == self@,
    {
        match self {
            Attribute::Float(v) => Attribute::Float(v.clone()),
            Attribute::Floats(v) => {
                let c = v.clone();
                assert(views(c@) =~= views(v@));
                Attribute::Floats(c)
            },
            Attribute::Int(v) => Attribute::Int(*v),
            Attribute::Ints(v) => {
                let c = v.clone();
                assert(c@ =~= v@);
                Attribute::Ints(c)
            },
            Attribute::Bytes(v) => {
                let c = v.clone();
                assert(c@ =~= v@);
                Attribute::Bytes(c)
            },
            Attribute::String(v) => Attribute::String(v.clone()),
            Attribute::Strings(v) => {
                let c = v.clone();
                assert(texts(c@) =~= texts(v@));
                Attribute::Strings(c)
            },
            Attribute::Tensor(v) => Attribute::Tensor(v.clone()),
            Attribute::Tensors(v) => {
                let c = v.clone();
                assert(views(c@) =~= views(v@));
                Attribute::Tensors(c)
            },
            Attribute::Graph(v) => Attribute::Graph(v.clone()),
            Attribute::Graphs(v) => {
                let c = v.clone();
                assert(views(c@) =~= views(v@));
                Attribute::Graphs(c)
            },
        }
    }
}

/// The tag that tells which payload field of an attribute record is in use.
#[derive(Clone, Copy, Debug, PartialEq, Eq, Structural)]
pub enum AttributeType {
    Undefined,
    Float,
    Int,
    String,
    Tensor,
    Graph,
    Floats,
    Ints,
    Strings,
    Tensors,
    Graphs,
}

impl AttributeType {
    /// The number that stands for the tag in a record.
    pub open spec fn spec_code(self) -> i32 {
        match self {
            AttributeType::Undefined => 0,
            AttributeType::Float => 1,
            AttributeType::Int => 2,
            AttributeType::String => 3,
            AttributeType::Tensor => 4,
            AttributeType::Graph => 5,
            AttributeType::Floats => 6,
            AttributeType::Ints => 7,
            AttributeType::Strings => 8,
            AttributeType::Tensors => 9,
            AttributeType::Graphs => 10,
        }
    }

    /// The number that stands for the tag in a record.
    #[verifier::when_used_as_spec(spec_code)]
    pub fn code(self) -> (r: i32)
        ensures
            r == self.spec_code(),
    {
        match self {
            AttributeType::Undefined => 0,
            AttributeType::Float => 1,
            AttributeType::Int => 2,
            AttributeType::String => 3,
            AttributeType::Tensor => 4,
            AttributeType::Graph => 5,
            AttributeType::Floats => 6,
            AttributeType::Ints => 7,
            AttributeType::Strings => 8,
            AttributeType::Tensors => 9,
            AttributeType::Graphs => 10,
        }
    }
}

/// The bit patterns of a sequence of floats.
pub open spec fn float_bits(v: Seq<FloatView>) -> Seq<u32> {
    Seq::new(v.len(), |k: int| v[k].bits)
}

/// The name texts of a sequence of floats.
pub open spec fn float_texts(v: Seq<FloatView>) -> Seq<Seq<char>> {
    Seq::new(v.len(), |k: int| v[k].text)
}

/// The UTF-8 encodings of a sequence of texts.
pub open spec fn encodings(v: Seq<Seq<char>>) -> Seq<Seq<u8>> {
    Seq::new(v.len(), |k: int| vstd::utf8::encode_utf8(v[k]))
}

/// The names of a sequence of tensors.
pub open spec fn tensor_names(v: Seq<TensorView>) -> Seq<Seq<char>> {
    Seq::new(v.len(), |k: int| v[k].name)
}

/// The names of a sequence of graphs.
pub open spec fn graph_names(v: Seq<GraphView>) -> Seq<Seq<char>> {
    Seq::new(v.len(), |k: int| v[k].name)
}

/// The record of an attribute: the value sits in the payload field of its
/// kind, the tag names that kind, and every other field is empty. Text is
/// stored as its UTF-8 encoding, in the same field and under the same tag as
/// raw bytes.
pub open spec fn made_attribute(name: Seq<char>, value: AttributeValue) -> AttributeView {
    let base = AttributeView::empty(name);
    match value {
        AttributeValue::Float(v) => AttributeView {
            f: v.bits,
            kind: AttributeType::Float.spec_code(),
            ..base
        },
        AttributeValue::Floats(v) => AttributeView {
            floats: float_bits(v),
            kind: AttributeType::Floats.spec_code(),
            ..base
        },
        AttributeValue::Int(v) => AttributeView { i: v, kind: AttributeType::Int.spec_code(), ..base },
        AttributeValue::Ints(v) => AttributeView {
            ints: v,
            kind: AttributeType::Ints.spec_code(),
            ..base
        },
        AttributeValue::Bytes(v) => AttributeView {
            s: v,
            kind: AttributeType::String.spec_code(),
            ..base
        },
        AttributeValue::String(v) => AttributeView {
            s: vstd::utf8::encode_utf8(v),
            kind: AttributeType::String.spec_code(),
            ..base
        },
        AttributeValue::Strings(v) => AttributeView {
            strings: encodings(v),
            kind: AttributeType::Strings.spec_code(),
            ..base
        },
        AttributeValue::Graph(v) => AttributeView {
            g: Some(v),
            kind: AttributeType::Graph.spec_code(),
            ..base
        },
        AttributeValue::Graphs(v) => AttributeView {
            graphs: v,
            kind: AttributeType::Graphs.spec_code(),
            ..base
        },
        AttributeValue::Tensor(v) => AttributeView {
            t: Some(v),
            kind: AttributeType::Tensor.spec_code(),
            ..base
        },
        AttributeValue::Tensors(v) => AttributeView {
            tensors: v,
            kind: AttributeType::Tensors.spec_code(),
            ..base
        },
    }
}

fn bits_of(v: &Vec<FloatValue>) -> (r: Vec<u32>)
    ensures
        r@ == float_bits(views(v@)),
{
    let mut out: Vec<u32> = Vec::new();
    let mut k: usize = 0;
    while k < v.len()
        invariant
            k <= v.len(),
            out.len() == k,
            forall|j: int| 0 <= j < k ==> #[trigger] out@[j] == v@[j].bits,
        decreases v.len() - k,
    {
        out.push(v[k].bits);
        k = k + 1;
    }
    assert(out@ =~= float_bits(views(v@)));
    out
}

fn encoded(v: &Vec<String>) -> (r: Vec<Vec<u8>>)
    ensures
        views(r@) == encodings(texts(v@)),
{
    let mut out: Vec<Vec<u8>> = Vec::new();
    let mut k: usize = 0;
    while k < v.len()
        invariant
            k <= v.len(),
            out.len() == k,
            forall|j: int| 0 <= j < k ==> (#[trigger] out@[j])@ == vstd::utf8::encode_utf8(v@[j]@),
        decreases v.len() - k,
    {
        out.push(v[k].as_str().as_bytes_vec());
        k = k + 1;
    }
    assert(views(out@) =~= encodings(texts(v@)));
    out
}

/// Creates the record of an attribute.
pub fn make_attribute(name: String, attribute: Attribute) -> (r: AttributeProto)
    ensures
        r@ == made_attribute(name@, attribute@),
{
    let mut attr_proto = AttributeProto::named(name);
    match attribute {
        Attribute::Float(val) => {
            attr_proto.f = val.bits;
            attr_proto.kind = AttributeType::Float.code();
        },
        Attribute::Floats(vals) => {
            attr_proto.floats = bits_of(&vals);
            attr_proto.kind = AttributeType::Floats.code();
        },
        Attribute::Int(val) => {
            attr_proto.i = val;
            attr_proto.kind = AttributeType::Int.code();
        },
        Attribute::Ints(vals) => {
            attr_proto.ints = vals;
            attr_proto.kind = AttributeType::Ints.code();
        },
        Attribute::Bytes(val) => {
            attr_proto.s = val;
            attr_proto.kind = AttributeType::String.code();
        },
        Attribute::String(val) => {
            attr_proto.s = val.as_str().as_bytes_vec();
            attr_proto.kind = AttributeType::String.code();
        },
        Attribute::Strings(vals) => {
            attr_proto.strings = encoded(&vals);
            attr_proto.kind = AttributeType::Strings.code();
        },
        Attribute::Graph(val) => {
            attr_proto.g = Some(val);
            attr_proto.kind = AttributeType::Graph.code();
        },
        Attribute::Graphs(vals) => {
            attr_proto.graphs = vals;
            attr_proto.kind = AttributeType::Graphs.code();
        },
        Attribute::Tensor(val) => {
            attr_proto.t = Some(val);
            attr_proto.kind = AttributeType::Tensor.code();
        },
        Attribute::Tensors(vals) => {
            attr_proto.tensors = vals;
            attr_proto.kind = AttributeType::Tensors.code();
        },
    }
    proof {
        let want = made_attribute(name@, attribute@);
        assert(attr_proto@.graphs =~= want.graphs);
        assert(attr_proto@.tensors =~= want.tensors);
        assert(attr_proto@.strings =~= want.strings);
    }
    attr_proto
}

/// How an attribute value reads inside a derived name: a word for its kind,
/// an underscore, and its content. Numbers are written in decimal, lists of
/// numbers and of texts are joined by underscores, tensors and graphs stand
/// by their names, and floats by the text they carry; lists of floats and
/// raw bytes are shown in square brackets.
pub open spec fn rendered(value: AttributeValue) -> Seq<char> {
    match value {
        AttributeValue::Float(v) => "float_"@ + v.text,
        AttributeValue::Floats(v) => "floats_"@ + bracketed(float_texts(v)),
        AttributeValue::Int(v) => "int_"@ + decimal(v as int),
        AttributeValue::Ints(v) => "ints_"@ + joined(decimals(v), "_"@),
        AttributeValue::Bytes(v) => "bytes_"@ + bracketed(byte_decimals(v)),
        AttributeValue::String(v) => "string_"@ + v,
        AttributeValue::Strings(v) => "strings_"@ + joined(v, "_"@),
        AttributeValue::Tensor(v) => "tensor_"@ + v.name,
        AttributeValue::Tensors(v) => "tensors_"@ + joined(tensor_names(v), "_"@),
        AttributeValue::Graph(v) => "graph_"@ + v.name,
        AttributeValue::Graphs(v) => "graphs_"@ + joined(graph_names(v), "_"@),
    }
}

fn float_texts_of(v: &Vec<FloatValue>) -> (r: Vec<String>)
    ensures
        texts(r@) == float_texts(views(v@)),
{
    let mut out: Vec<String> = Vec::new();
    let mut k: usize = 0;
    while k < v.len()
        invariant
            k <= v.len(),
            out.len() == k,
            forall|j: int| 0 <= j < k ==> (#[trigger] out@[j])@ == v@[j].text@,
        decreases v.len() - k,
    {
        out.push(v[k].text.clone());
        k = k + 1;
    }
    assert(texts(out@) =~= float_texts(views(v@)));
    out
}

fn tensor_names_of(v: &Vec<TensorProto>) -> (r: Vec<String>)
    ensures
        texts(r@) == tensor_names(views(v@)),
{
    let mut out: Vec<String> = Vec::new();
    let mut k: usize = 0;
    while k < v.len()
        invariant
            k <= v.len(),
            out.len() == k,
            forall|j: int| 0 <= j < k ==> (#[trigger] out@[j])@ == v@[j].name@,
        decreases v.len() - k,
    {
        out.push(v[k].name.clone());
        k = k + 1;
    }
    assert(texts(out@) =~= tensor_names(views(v@)));
    out
}

fn graph_names_of(v: &Vec<GraphProto>) -> (r: Vec<String>)
    ensures
        texts(r@) == graph_names(views(v@)),
{
    let mut out: Vec<String> = Vec::new();
    let mut k: usize = 0;
    while k < v.len()
        invariant
            k <= v.len(),
            out.len() == k,
            forall|j: int| 0 <= j < k ==> (#[trigger] out@[j])@ == v@[j].name@,
        decreases v.len() - k,
    {
        out.push(v[k].name.clone());
        k = k + 1;
    }
    assert(texts(out@) =~= graph_names(views(v@)));
    out
}

impl Attribute {
    /// Renders the value as it reads inside a derived name.
    pub fn render(&self) -> (r: String)
        ensures
            r@ == rendered(self@),
    {
        match self {
            Attribute::Float(v) => {
                let mut out = String::from_str("float_");
                out.append(v.text.as_str());
                out
            },
            Attribute::Floats(v) => {
                let mut out = String::from_str("floats_");
                let items = float_texts_of(v);
                out.append(bracket(&items).as_str());
                out
            },
            Attribute::Int(v) => {
                let mut out = String::from_str("int_");
                out.append(decimal_of_i64(*v).as_str());
                out
            },
            Attribute::Ints(v) => {
                let mut out = String::from_str("ints_");
                let items = decimals_of(v);
                out.append(join(&items, "_").as_str());
                out
            },
            Attribute::Bytes(v) => {
                let mut out = String::from_str("bytes_");
                let items = byte_decimals_of(v);
                out.append(bracket(&items).as_str());
                out
            },
            Attribute::String(v) => {
                let mut out = String::from_str("string_");
                out.append(v.as_str());
                out
            },
            Attribute::Strings(v) => {
                let mut out = String::from_str("strings_");
                out.append(join(v, "_").as_str());
                out
            },
            Attribute::Tensor(v) => {
                let mut out = String::from_str("tensor_");
                out.append(v.name.as_str());
                out
            },
            Attribute::Tensors(v) => {
                let mut out = String::from_str("tensors_");
                let items = tensor_names_of(v);
                out.append(join(&items, "_").as_str());
                out
            },
            Attribute::Graph(v) => {
                let mut out = String::from_str("graph_");
                out.append(v.name.as_str());
                out
            },
            Attribute::Graphs(v) => {
                let mut out = String::from_str("graphs_");
                let items = graph_names_of(v);
                out.append(join(&items, "_").as_str());
                out
            },
        }
    }
}

impl From<bool> for Attribute {
    fn from(v: bool) -> (r: Self) {
        Attribute::Int(if v { 1 } else { 0 })
    }
}

impl FromSpecImpl<bool> for Attribute {
    open spec fn obeys_from_spec() -> bool {
        true
    }

    open spec fn from_spec(v: bool) -> Attribute {
        Attribute::Int(if v { 1 } else { 0 })
    }
}

impl From<Axes> for Attribute {
    fn from(v: Axes) -> (r: Self) {
        Attribute::Ints(v.0)
    }
}

impl FromSpecImpl<Axes> for Attribute {
    open spec fn obeys_from_spec() -> bool {
        true
    }

    open spec fn from_spec(v: Axes) -> Attribute {
        Attribute::Ints(v.0)
    }
}

impl From<FloatValue> for Attribute {
    fn from(v: FloatValue) -> (r: Self) {
        Attribute::Float(v)
    }
}

impl FromSpecImpl<FloatValue> for Attribute {
    open spec fn obeys_from_spec() -> bool {
        true
    }

    open spec fn from_spec(v: FloatValue) -> Attribute {
        Attribute::Float(v)
    }
}

impl From<Vec<FloatValue>> for Attribute {
    fn from(v: Vec<FloatValue>) -> (r: Self) {
        Attribute::Floats(v)
    }
}

impl FromSpecImpl<Vec<FloatValue>> for Attribute {
    open spec fn obeys_from_spec() -> bool {
        true
    }

    open spec fn from_spec(v: Vec<FloatValue>) -> Attribute {
        Attribute::Floats(v)
    }
}

impl From<i64> for Attribute {
    fn from(v: i64) -> (r: Self) {
        Attribute::Int(v)
    }
}

impl FromSpecImpl<i64> for Attribute {
    open spec fn obeys_from_spec() -> bool {
        true
    }

    open spec fn from_spec(v: i64) -> Attribute {
        Attribute::Int(v)
    }
}

impl From<Vec<u8>> for Attribute {
    fn from(v: Vec<u8>) -> (r: Self) {
        Attribute::Bytes(v)
    }
}

impl FromSpecImpl<Vec<u8>> for Attribute {
    open spec fn obeys_from_spec() -> bool {
        true
    }

    open spec fn from_spec(v: Vec<u8>) -> Attribute {
        Attribute::Bytes(v)
    }
}

impl From<String> for Attribute {
    fn from(v: String) -> (r: Self) {
        Attribute::String(v)
    }
}

impl FromSpecImpl<String> for Attribute {
    open spec fn obeys_from_spec() -> bool {
        true
    }

    open spec fn from_spec(v: String) -> Attribute {
        Attribute::String(v)
    }
}

impl From<Vec<String>> for Attribute {
    fn from(v: Vec<String>) -> (r: Self) {
        Attribute::Strings(v)
    }
}

impl FromSpecImpl<Vec<String>> for Attribute {
    open spec fn obeys_from_spec() -> bool {
        true
    }

    open spec fn from_spec(v: Vec<String>) -> Attribute {
        Attribute::Strings(v)
    }
}

impl From<Vec<i64>> for Attribute {
    fn from(v: Vec<i64>) -> (r: Self) {
        Attribute::Ints(v)
    }
}

impl FromSpecImpl<Vec<i64>> for Attribute {
    open spec fn obeys_from_spec() -> bool {
        true
    }

    open spec fn from_spec(v: Vec<i64>) -> Attribute {
        Attribute::Ints(v)
    }
}

impl From<TensorProto> for Attribute {
    fn from(v: TensorProto) -> (r: Self) {
        Attribute::Tensor(v)
    }
}

impl FromSpecImpl<TensorProto> for Attribute {
    open spec fn obeys_from_spec() -> bool {
        true
    }

    open spec fn from_spec(v: TensorProto) -> Attribute {
        Attribute::Tensor(v)
    }
}

impl From<Vec<TensorProto>> for Attribute {
    fn from(v: Vec<TensorProto>) -> (r: Self) {
        Attribute::Tensors(v)
    }
}

impl FromSpecImpl<Vec<TensorProto>> for Attribute {
    open spec fn obeys_from_spec() -> bool {
        true
    }

    open spec fn from_spec(v: Vec<TensorProto>) -> Attribute {
        Attribute::Tensors(v)
    }
}

impl From<GraphProto> for Attribute {
    fn from(v: GraphProto) -> (r: Self) {
        Attribute::Graph(v)
    }
}

impl FromSpecImpl<GraphProto> for Attribute {
    open spec fn obeys_from_spec() -> bool {
        true
    }

    open spec fn from_spec(v: GraphProto) -> Attribute {
        Attribute::Graph(v)
    }
}

impl From<Vec<GraphProto>> for Attribute {
    fn from(v: Vec<GraphProto>) -> (r: Self) {
        Attribute::Graphs(v)
    }
}

impl FromSpecImpl<Vec<GraphProto>> for Attribute {
    open spec fn obeys_from_spec() -> bool {
        true
    }

    open spec fn from_spec(v: Vec<GraphProto>) -> Attribute {
        Attribute::Graphs(v)
    }
}

impl From<&str> for Attribute {
    fn from(v: &str) -> (r: Self)
        ensures
            r@ == AttributeValue::String(v@),
    {
        Attribute::String(v.to_owned())
    }
}

impl From<Vec<&str>> for Attribute {
    fn from(v: Vec<&str>) -> (r: Self)
        ensures
            r@ == AttributeValue::Strings(Seq::new(v@.len(), |k: int| v@[k]@)),
    {
        let mut owned: Vec<String> = Vec::new();
        let mut k: usize = 0;
        while k < v.len()
            invariant
                k <= v.len(),
                owned.len() == k,
                forall|j: int| 0 <= j < k ==> (#[trigger] owned@[j])@ == v@[j]@,
            decreases v.len() - k,
        {
            owned.push(v[k].to_owned());
            k = k + 1;
        }
        assert(texts(owned@) =~= Seq::new(v@.len(), |k: int| v@[k]@));
        Attribute::Strings(owned)
    }
}

impl FromSpecImpl<Vec<&str>> for Attribute {
    open spec fn obeys_from_spec() -> bool {
        false
    }

    open spec fn from_spec(v: Vec<&str>) -> Attribute {
        arbitrary()
    }
}

impl FromSpecImpl<&str> for Attribute {
    open spec fn obeys_from_spec() -> bool {
        false
    }

    open spec fn from_spec(v: &str) -> Attribute {
        arbitrary()
    }
}

} // verus!
