//! The records of a model description: nodes, values, tensors, graphs and
//! the model itself, field for field as the interchange format lays them out.
//!
//! Floating-point payloads are carried as IEEE 754 bit patterns. Every record
//! has a view that replaces strings and vectors by sequences; contracts
//! throughout the crate speak of these views.

use vstd::prelude::*;

verus! {

/// The views of a sequence of records.
pub open spec fn views<T: View>(v: Seq<T>) -> Seq<T::V> {
    Seq::new(v.len(), |i: int| v[i]@)
}

/// Element type of a tensor.
#[derive(Clone, Copy, Debug, PartialEq, Eq, Structural)]
pub enum DataType {
    Undefined,
    Float,
    Uint8,
    Int8,
    Uint16,
    Int16,
    Int32,
    Int64,
    String,
    Bool,
    Float16,
    Double,
    Uint32,
    Uint64,
    Complex64,
    Complex128,
    Bfloat16,
}

impl DataType {
    /// The number that stands for the element type in a record.
    pub open spec fn spec_code(self) -> i32 {
        match self {
            DataType::Undefined => 0,
            DataType::Float => 1,
            DataType::Uint8 => 2,
            DataType::Int8 => 3,
            DataType::Uint16 => 4,
            DataType::Int16 => 5,
            DataType::Int32 => 6,
            DataType::Int64 => 7,
            DataType::String => 8,
            DataType::Bool => 9,
            DataType::Float16 => 10,
            DataType::Double => 11,
            DataType::Uint32 => 12,
            DataType::Uint64 => 13,
            DataType::Complex64 => 14,
            DataType::Complex128 => 15,
            DataType::Bfloat16 => 16,
        }
    }

    /// The number that stands for the element type in a record.
    #[verifier::when_used_as_spec(spec_code)]
    pub fn code(self) -> (r: i32)
        ensures
            r == self.spec_code(),
    {
        match self {
            DataType::Undefined => 0,
            DataType::Float => 1,
            DataType::Uint8 => 2,
            DataType::Int8 => 3,
            DataType::Uint16 => 4,
            DataType::Int16 => 5,
            DataType::Int32 => 6,
            DataType::Int64 => 7,
            DataType::String => 8,
            DataType::Bool => 9,
            DataType::Float16 => 10,
            DataType::Double => 11,
            DataType::Uint32 => 12,
            DataType::Uint64 => 13,
            DataType::Complex64 => 14,
            DataType::Complex128 => 15,
            DataType::Bfloat16 => 16,
        }
    }
}

impl Default for DataType {
    fn default() -> (r: Self)
        ensures
            r == DataType::Undefined,
    {
        DataType::Undefined
    }
}

/// One dimension of a shape: a fixed extent or a named, symbolic one.
#[derive(Debug, PartialEq)]
pub enum Dimension {
    Value(i64),
    Param(String),
}

/// View of a [`Dimension`].
pub enum DimensionView {
    Value(i64),
    Param(Seq<char>),
}

impl View for Dimension {
    type V = DimensionView;

    open spec fn view(&self) -> DimensionView {
        match self {
            Dimension::Value(v) => DimensionView::Value(*v),
            Dimension::Param(p) => DimensionView::Param(p@),
        }
    }
}

impl Clone for Dimension {
    fn clone(&self) -> (r: Self)
        ensures
            r@ == self@,
    {
        match self {
            Dimension::Value(v) => Dimension::Value(*v),
            Dimension::Param(p) => Dimension::Param(p.clone()),
        }
    }
}

/// The type of a tensor value: element type and, where known, its shape.
#[derive(Debug, PartialEq)]
pub struct TypeProto {
    pub denotation: String,
    pub elem_type: i32,
    pub shape: Option<Vec<Dimension>>,
}

/// View of a [`TypeProto`].
pub struct TypeView {
    pub denotation: Seq<char>,
    pub elem_type: i32,
    pub shape: Option<Seq<DimensionView>>,
}

impl View for TypeProto {
    type V = TypeView;

    open spec fn view(&self) -> TypeView {
        TypeView {
            denotation: self.denotation@,
            elem_type: self.elem_type,
            shape: match self.shape {
                Some(dims) => Some(views(dims@)),
                None => None,
            },
        }
    }
}

impl TypeProto {
    /// The type of a tensor of the given element type and unknown shape.
    pub open spec fn spec_of(elem_type: DataType) -> TypeView {
        TypeView { denotation: Seq::empty(), elem_type: elem_type.spec_code(), shape: None }
    }

    /// The type of a tensor of the given element type and unknown shape.
    pub fn of(elem_type: DataType) -> (r: Self)
        ensures
            r@ == Self::spec_of(elem_type),
    {
        TypeProto { denotation: String::new(), elem_type: elem_type.code(), shape: None }
    }
}

impl Clone for TypeProto {
    fn clone(&self) -> (r: Self)
        ensures
            r@ == self@,
    {
        let shape = match &self.shape {
            Some(dims) => {
                let copy = dims.clone();
                assert(views(copy@) =~= views(dims@));
                Some(copy)
            },
            None => None,
        };
        TypeProto { denotation: self.denotation.clone(), elem_type: self.elem_type, shape }
    }
}

/// A graph input or output: its name, type and documentation.
#[derive(Debug, PartialEq)]
pub struct ValueInfoProto {
    pub name: String,
    pub typ: Option<TypeProto>,
    pub doc_string: String,
}

/// View of a [`ValueInfoProto`].
pub struct ValueInfoView {
    pub name: Seq<char>,
    pub typ: Option<TypeView>,
    pub doc_string: Seq<char>,
}

impl View for ValueInfoProto {
    type V = ValueInfoView;

    open spec fn view(&self) -> ValueInfoView {
        ValueInfoView {
            name: self.name@,
            typ: match self.typ {
                Some(t) => Some(t@),
                None => None,
            },
            doc_string: self.doc_string@,
        }
    }
}

impl ValueInfoProto {
    /// A value of the given name, without type or documentation.
    pub open spec fn spec_named(name: Seq<char>) -> ValueInfoView {
        ValueInfoView { name, typ: None, doc_string: Seq::empty() }
    }

    /// A value of the given name, without type or documentation.
    pub fn named(name: &str) -> (r: Self)
        ensures
            r@ == Self::spec_named(name@),
    {
        ValueInfoProto { name: name.to_owned(), typ: None, doc_string: String::new() }
    }
}

impl Clone for ValueInfoProto {
    fn clone(&self) -> (r: Self)
        ensures
            r@ == self@,
    {
        let typ = match &self.typ {
            Some(t) => Some(t.clone()),
            None => None,
        };
        ValueInfoProto { name: self.name.clone(), typ, doc_string: self.doc_string.clone() }
    }
}

impl Default for ValueInfoProto {
    fn default() -> (r: Self)
        ensures
            r@ == Self::spec_named(Seq::empty()),
    {
        ValueInfoProto { name: String::new(), typ: None, doc_string: String::new() }
    }
}

/// A tensor literal. `float_data` and `double_data` hold the bit patterns
/// of their numbers.
#[derive(Debug, PartialEq)]
pub struct TensorProto {
    pub dims: Vec<i64>,
    pub data_type: i32,
    pub float_data: Vec<u32>,
    pub int32_data: Vec<i32>,
    pub string_data: Vec<Vec<u8>>,
    pub int64_data: Vec<i64>,
    pub name: String,
    pub doc_string: String,
    pub raw_data: Vec<u8>,
    pub double_data: Vec<u64>,
    pub uint64_data: Vec<u64>,
}

/// View of a [`TensorProto`].
pub struct TensorView {
    pub dims: Seq<i64>,
    pub data_type: i32,
    pub float_data: Seq<u32>,
    pub int32_data: Seq<i32>,
    pub string_data: Seq<Seq<u8>>,
    pub int64_data: Seq<i64>,
    pub name: Seq<char>,
    pub doc_string: Seq<char>,
    pub raw_data: Seq<u8>,
    pub double_data: Seq<u64>,
    pub uint64_data: Seq<u64>,
}

impl TensorView {
    /// The tensor without name, type or data.
    pub open spec fn empty() -> TensorView {
        TensorView {
            dims: Seq::empty(),
            data_type: 0,
            float_data: Seq::empty(),
            int32_data: Seq::empty(),
            string_data: Seq::empty(),
            int64_data: Seq::empty(),
            name: Seq::empty(),
            doc_string: Seq::empty(),
            raw_data: Seq::empty(),
            double_data: Seq::empty(),
            uint64_data: Seq::empty(),
        }
    }
}

impl View for TensorProto {
    type V = TensorView;

    open spec fn view(&self) -> TensorView {
        TensorView {
            dims: self.dims@,
            data_type: self.data_type,
            float_data: self.float_data@,
            int32_data: self.int32_data@,
            string_data: views(self.string_data@),
            int64_data: self.int64_data@,
            name: self.name@,
            doc_string: self.doc_string@,
            raw_data: self.raw_data@,
            double_data: self.double_data@,
            uint64_data: self.uint64_data@,
        }
    }
}

impl Default for TensorProto {
    fn default() -> (r: Self)
        ensures
            r@ == TensorView::empty(),
    {
        let r = TensorProto {
            dims: Vec::new(),
            data_type: 0,
            float_data: Vec::new(),
            int32_data: Vec::new(),
            string_data: Vec::new(),
            int64_data: Vec::new(),
            name: String::new(),
            doc_string: String::new(),
            raw_data: Vec::new(),
            double_data: Vec::new(),
            uint64_data: Vec::new(),
        };
        assert(views(r.string_data@) =~= Seq::<Seq<u8>>::empty());
        r
    }
}

impl Clone for TensorProto {
    fn clone(&self) -> (r: Self)
        ensures
            r@ == self@,
    {
        let r = TensorProto {
            dims: self.dims.clone(),
            data_type: self.data_type,
            float_data: self.float_data.clone(),
            int32_data: self.int32_data.clone(),
            string_data: self.string_data.clone(),
            int64_data: self.int64_data.clone(),
            name: self.name.clone(),
            doc_string: self.doc_string.clone(),
            raw_data: self.raw_data.clone(),
            double_data: self.double_data.clone(),
            uint64_data: self.uint64_data.clone(),
        };
        assert(r.dims@ =~= self.dims@);
        assert(r.float_data@ =~= self.float_data@);
        assert(r.int32_data@ =~= self.int32_data@);
        assert(views(r.string_data@) =~= views(self.string_data@));
        assert(r.int64_data@ =~= self.int64_data@);
        assert(r.raw_data@ =~= self.raw_data@);
        assert(r.double_data@ =~= self.double_data@);
        assert(r.uint64_data@ =~= self.uint64_data@);
        r
    }
}

impl TensorProto {
    /// The one-element tensor that holds a 64-bit integer.
    pub open spec fn spec_of_i64(v: i64) -> TensorView {
        TensorView {
            dims: seq![1i64],
            int64_data: seq![v],
            data_type: DataType::Int64.spec_code(),
            ..TensorView::empty()
        }
    }

    /// The one-element tensor that holds a 64-bit integer.
    pub fn of_i64(v: i64) -> (r: Self)
        ensures
            r@ == Self::spec_of_i64(v),
    {
        let mut r = TensorProto::default();
        r.dims.push(1);
        r.int64_data.push(v);
        r.data_type = DataType::Int64.code();
        assert(r.dims@ =~= seq![1i64]);
        assert(r.int64_data@ =~= seq![v]);
        r
    }

    /// The tensor of one dimension that holds the given 64-bit integers.
    pub open spec fn spec_of_i64s(data: Seq<i64>) -> TensorView {
        TensorView {
            dims: seq![data.len() as i64],
            int64_data: data,
            data_type: DataType::Int64.spec_code(),
            ..TensorView::empty()
        }
    }

    /// The tensor of one dimension that holds the given 64-bit integers.
    pub fn of_i64s(data: Vec<i64>) -> (r: Self)
        requires
            data@.len() <= i64::MAX,
        ensures
            r@ == Self::spec_of_i64s(data@),
    {
        let mut r = TensorProto::default();
        r.dims.push(data.len() as i64);
        r.int64_data = data;
        r.data_type = DataType::Int64.code();
        assert(r.dims@ =~= seq![data@.len() as i64]);
        r
    }

    /// The one-element tensor that holds a 32-bit integer.
    pub open spec fn spec_of_i32(v: i32) -> TensorView {
        TensorView {
            dims: seq![1i64],
            int32_data: seq![v],
            data_type: DataType::Int32.spec_code(),
            ..TensorView::empty()
        }
    }

    /// The one-element tensor that holds a 32-bit integer.
    pub fn of_i32(v: i32) -> (r: Self)
        ensures
            r@ == Self::spec_of_i32(v),
    {
        let mut r = TensorProto::default();
        r.dims.push(1);
        r.int32_data.push(v);
        r.data_type = DataType::Int32.code();
        assert(r.dims@ =~= seq![1i64]);
        assert(r.int32_data@ =~= seq![v]);
        r
    }

    /// The tensor of one dimension that holds the given 32-bit integers.
    pub open spec fn spec_of_i32s(data: Seq<i32>) -> TensorView {
        TensorView {
            dims: seq![data.len() as i64],
            int32_data: data,
            data_type: DataType::Int32.spec_code(),
            ..TensorView::empty()
        }
    }

    /// The tensor of one dimension that holds the given 32-bit integers.
    pub fn of_i32s(data: Vec<i32>) -> (r: Self)
        requires
            data@.len() <= i64::MAX,
        ensures
            r@ == Self::spec_of_i32s(data@),
    {
        let mut r = TensorProto::default();
        r.dims.push(data.len() as i64);
        r.int32_data = data;
        r.data_type = DataType::Int32.code();
        assert(r.dims@ =~= seq![data@.len() as i64]);
        r
    }

    /// The one-element tensor that holds an unsigned 64-bit integer.
    pub open spec fn spec_of_u64(v: u64) -> TensorView {
        TensorView {
            dims: seq![1i64],
            uint64_data: seq![v],
            data_type: DataType::Uint64.spec_code(),
            ..TensorView::empty()
        }
    }

    /// The one-element tensor that holds an unsigned 64-bit integer.
    pub fn of_u64(v: u64) -> (r: Self)
        ensures
            r@ == Self::spec_of_u64(v),
    {
        let mut r = TensorProto::default();
        r.dims.push(1);
        r.uint64_data.push(v);
        r.data_type = DataType::Uint64.code();
        assert(r.dims@ =~= seq![1i64]);
        assert(r.uint64_data@ =~= seq![v]);
        r
    }

    /// The tensor of one dimension that holds the given unsigned 64-bit
    /// integers.
    pub open spec fn spec_of_u64s(data: Seq<u64>) -> TensorView {
        TensorView {
            dims: seq![data.len() as i64],
            uint64_data: data,
            data_type: DataType::Uint64.spec_code(),
            ..TensorView::empty()
        }
    }

    /// The tensor of one dimension that holds the given unsigned 64-bit
    /// integers.
    pub fn of_u64s(data: Vec<u64>) -> (r: Self)
        requires
            data@.len() <= i64::MAX,
        ensures
            r@ == Self::spec_of_u64s(data@),
    {
        let mut r = TensorProto::default();
        r.dims.push(data.len() as i64);
        r.uint64_data = data;
        r.data_type = DataType::Uint64.code();
        assert(r.dims@ =~= seq![data@.len() as i64]);
        r
    }

    /// The tensor of one dimension that holds the 32-bit floats with the
    /// given bit patterns.
    pub open spec fn spec_of_floats_bits(data: Seq<u32>) -> TensorView {
        TensorView {
            dims: seq![data.len() as i64],
            float_data: data,
            data_type: DataType::Float.spec_code(),
            ..TensorView::empty()
        }
    }

    /// The tensor of one dimension that holds the 32-bit floats with the
    /// given bit patterns.
    pub fn of_floats_bits(data: Vec<u32>) -> (r: Self)
        requires
            data@.len() <= i64::MAX,
        ensures
            r@ == Self::spec_of_floats_bits(data@),
    {
        let mut r = TensorProto::default();
        r.dims.push(data.len() as i64);
        r.float_data = data;
        r.data_type = DataType::Float.code();
        assert(r.dims@ =~= seq![data@.len() as i64]);
        r
    }

    /// The one-element tensor that holds the 64-bit float with the given
    /// bit pattern.
    pub open spec fn spec_of_double_bits(bits: u64) -> TensorView {
        TensorView {
            dims: seq![1i64],
            double_data: seq![bits],
            data_type: DataType::Double.spec_code(),
            ..TensorView::empty()
        }
    }

    /// The one-element tensor that holds the 64-bit float with the given
    /// bit pattern.
    pub fn of_double_bits(bits: u64) -> (r: Self)
        ensures
            r@ == Self::spec_of_double_bits(bits),
    {
        let mut r = TensorProto::default();
        r.dims.push(1);
        r.double_data.push(bits);
        r.data_type = DataType::Double.code();
        assert(r.dims@ =~= seq![1i64]);
        assert(r.double_data@ =~= seq![bits]);
        r
    }

    /// The tensor of one dimension that holds the 64-bit floats with the
    /// given bit patterns.
    pub open spec fn spec_of_doubles_bits(data: Seq<u64>) -> TensorView {
        TensorView {
            dims: seq![data.len() as i64],
            double_data: data,
            data_type: DataType::Double.spec_code(),
            ..TensorView::empty()
        }
    }

    /// The tensor of one dimension that holds the 64-bit floats with the
    /// given bit patterns.
    pub fn of_doubles_bits(data: Vec<u64>) -> (r: Self)
        requires
            data@.len() <= i64::MAX,
        ensures
            r@ == Self::spec_of_doubles_bits(data@),
    {
        let mut r = TensorProto::default();
        r.dims.push(data.len() as i64);
        r.double_data = data;
        r.data_type = DataType::Double.code();
        assert(r.dims@ =~= seq![data@.len() as i64]);
        r
    }

    /// The one-element tensor that holds the 32-bit float with the given
    /// bit pattern.
    pub open spec fn spec_of_float_bits(bits: u32) -> TensorView {
        TensorView {
            dims: seq![1i64],
            float_data: seq![bits],
            data_type: DataType::Float.spec_code(),
            ..TensorView::empty()
        }
    }

    /// The one-element tensor that holds the 32-bit float with the given
    /// bit pattern.
    pub fn of_float_bits(bits: u32) -> (r: Self)
        ensures
            r@ == Self::spec_of_float_bits(bits),
    {
        let mut r = TensorProto::default();
        r.dims.push(1);
        r.float_data.push(bits);
        r.data_type = DataType::Float.code();
        assert(r.dims@ =~= seq![1i64]);
        assert(r.float_data@ =~= seq![bits]);
        r
    }
}

/// A named attribute as a node record holds it: the tag in `kind` says which
/// of the payload fields carries the value.
#[derive(Debug, PartialEq)]
pub struct AttributeProto {
    pub name: String,
    pub doc_string: String,
    pub kind: i32,
    pub f: u32,
    pub i: i64,
    pub s: Vec<u8>,
    pub t: Option<TensorProto>,
    pub g: Option<GraphProto>,
    pub floats: Vec<u32>,
    pub ints: Vec<i64>,
    pub strings: Vec<Vec<u8>>,
    pub tensors: Vec<TensorProto>,
    pub graphs: Vec<GraphProto>,
}

/// One operation of a graph. Its edges are names: `input` lists what it
/// consumes, `output` what it produces.
#[derive(Debug, PartialEq)]
pub struct NodeProto {
    pub input: Vec<String>,
    pub output: Vec<String>,
    pub name: String,
    pub op_type: String,
    pub domain: String,
    pub attribute: Vec<AttributeProto>,
    pub doc_string: String,
}

/// A finished graph: nodes in execution order, declared inputs and outputs,
/// and the constant tensors bound to inputs.
#[derive(Debug, PartialEq)]
pub struct GraphProto {
    pub node: Vec<NodeProto>,
    pub name: String,
    pub initializer: Vec<TensorProto>,
    pub doc_string: String,
    pub input: Vec<ValueInfoProto>,
    pub output: Vec<ValueInfoProto>,
}

/// View of an [`AttributeProto`].
pub struct AttributeView {
    pub name: Seq<char>,
    pub doc_string: Seq<char>,
    pub kind: i32,
    pub f: u32,
    pub i: i64,
    pub s: Seq<u8>,
    pub t: Option<TensorView>,
    pub g: Option<GraphView>,
    pub floats: Seq<u32>,
    pub ints: Seq<i64>,
    pub strings: Seq<Seq<u8>>,
    pub tensors: Seq<TensorView>,
    pub graphs: Seq<GraphView>,
}

/// View of a [`NodeProto`].
pub struct NodeView {
    pub input: Seq<Seq<char>>,
    pub output: Seq<Seq<char>>,
    pub name: Seq<char>,
    pub op_type: Seq<char>,
    pub domain: Seq<char>,
    pub attribute: Seq<AttributeView>,
    pub doc_string: Seq<char>,
}

/// View of a [`GraphProto`].
pub struct GraphView {
    pub node: Seq<NodeView>,
    pub name: Seq<char>,
    pub initializer: Seq<TensorView>,
    pub doc_string: Seq<char>,
    pub input: Seq<ValueInfoView>,
    pub output: Seq<ValueInfoView>,
}

impl AttributeView {
    /// The attribute of the given name without a value.
    pub open spec fn empty(name: Seq<char>) -> AttributeView {
        AttributeView {
            name,
            doc_string: Seq::empty(),
            kind: 0,
            f: 0,
            i: 0,
            s: Seq::empty(),
            t: None,
            g: None,
            floats: Seq::empty(),
            ints: Seq::empty(),
            strings: Seq::empty(),
            tensors: Seq::empty(),
            graphs: Seq::empty(),
        }
    }
}

impl NodeView {
    /// The node without name, operation or edges.
    pub open spec fn empty() -> NodeView {
        NodeView {
            input: Seq::empty(),
            output: Seq::empty(),
            name: Seq::empty(),
            op_type: Seq::empty(),
            domain: Seq::empty(),
            attribute: Seq::empty(),
            doc_string: Seq::empty(),
        }
    }
}

impl GraphView {
    /// The graph without name or content.
    pub open spec fn empty() -> GraphView {
        GraphView {
            node: Seq::empty(),
            name: Seq::empty(),
            initializer: Seq::empty(),
            doc_string: Seq::empty(),
            input: Seq::empty(),
            output: Seq::empty(),
        }
    }
}

impl View for AttributeProto {
    type V = AttributeView;

    open spec fn view(&self) -> AttributeView
        decreases self,
    {
        AttributeView {
            name: self.name@,
            doc_string: self.doc_string@,
            kind: self.kind,
            f: self.f,
            i: self.i,
            s: self.s@,
            t: match self.t {
                Some(t) => Some(t@),
                None => None,
            },
            g: match self.g {
                Some(g) => Some(g.view()),
                None => None,
            },
            floats: self.floats@,
            ints: self.ints@,
            strings: views(self.strings@),
            tensors: views(self.tensors@),
            graphs: Seq::new(
                self.graphs.len() as nat,
                |k: int|
                    if 0 <= k < self.graphs.len() {
                        self.graphs[k].view()
                    } else {
                        arbitrary()
                    },
            ),
        }
    }
}

impl View for NodeProto {
    type V = NodeView;

    open spec fn view(&self) -> NodeView
        decreases self,
    {
        NodeView {
            input: views(self.input@),
            output: views(self.output@),
            name: self.name@,
            op_type: self.op_type@,
            domain: self.domain@,
            attribute: Seq::new(
                self.attribute.len() as nat,
                |k: int|
                    if 0 <= k < self.attribute.len() {
                        self.attribute[k].view()
                    } else {
                        arbitrary()
                    },
            ),
            doc_string: self.doc_string@,
        }
    }
}

impl View for GraphProto {
    type V = GraphView;

    open spec fn view(&self) -> GraphView
        decreases self,
    {
        GraphView {
            node: Seq::new(
                self.node.len() as nat,
                |k: int|
                    if 0 <= k < self.node.len() {
                        self.node[k].view()
                    } else {
                        arbitrary()
                    },
            ),
            name: self.name@,
            initializer: views(self.initializer@),
            doc_string: self.doc_string@,
            input: views(self.input@),
            output: views(self.output@),
        }
    }
}

impl Clone for AttributeProto {
    fn clone(&self) -> (r: Self)
        ensures
            r@ == self@,
        decreases self,
    {
        let g = match &self.g {
            Some(g) => Some(g.clone()),
            None => None,
        };
        let mut graphs: Vec<GraphProto> = Vec::new();
        let mut k: usize = 0;
        while k < self.graphs.len()
            invariant
                k <= self.graphs.len(),
                graphs.len() == k,
                forall|j: int| 0 <= j < k ==> (#[trigger] graphs@[j])@ == self.graphs@[j]@,
            decreases self.graphs.len() - k,
        {
            graphs.push(self.graphs[k].clone());
            k = k + 1;
        }
        let r = AttributeProto {
            name: self.name.clone(),
            doc_string: self.doc_string.clone(),
            kind: self.kind,
            f: self.f,
            i: self.i,
            s: self.s.clone(),
            t: match &self.t {
                Some(t) => Some(t.clone()),
                None => None,
            },
            g,
            floats: self.floats.clone(),
            ints: self.ints.clone(),
            strings: self.strings.clone(),
            tensors: self.tensors.clone(),
            graphs,
        };
        assert(r.s@ =~= self.s@);
        assert(r.floats@ =~= self.floats@);
        assert(r.ints@ =~= self.ints@);
        assert(views(r.strings@) =~= views(self.strings@));
        assert(views(r.tensors@) =~= views(self.tensors@));
        assert(r@.graphs =~= self@.graphs);
        r
    }
}

impl Clone for NodeProto {
    fn clone(&self) -> (r: Self)
        ensures
            r@ == self@,
        decreases self,
    {
        let mut attribute: Vec<AttributeProto> = Vec::new();
        let mut k: usize = 0;
        while k < self.attribute.len()
            invariant
                k <= self.attribute.len(),
                attribute.len() == k,
                forall|j: int| 0 <= j < k ==> (#[trigger] attribute@[j])@ == self.attribute@[j]@,
            decreases self.attribute.len() - k,
        {
            attribute.push(self.attribute[k].clone());
            k = k + 1;
        }
        let r = NodeProto {
            input: self.input.clone(),
            output: self.output.clone(),
            name: self.name.clone(),
            op_type: self.op_type.clone(),
            domain: self.domain.clone(),
            attribute,
            doc_string: self.doc_string.clone(),
        };
        assert(views(r.input@) =~= views(self.input@));
        assert(views(r.output@) =~= views(self.output@));
        assert(r@.attribute =~= self@.attribute);
        r
    }
}

impl Clone for GraphProto {
    fn clone(&self) -> (r: Self)
        ensures
            r@ == self@,
        decreases self,
    {
        let mut node: Vec<NodeProto> = Vec::new();
        let mut k: usize = 0;
        while k < self.node.len()
            invariant
                k <= self.node.len(),
                node.len() == k,
                forall|j: int| 0 <= j < k ==> (#[trigger] node@[j])@ == self.node@[j]@,
            decreases self.node.len() - k,
        {
            node.push(self.node[k].clone());
            k = k + 1;
        }
        let r = GraphProto {
            node,
            name: self.name.clone(),
            initializer: self.initializer.clone(),
            doc_string: self.doc_string.clone(),
            input: self.input.clone(),
            output: self.output.clone(),
        };
        assert(r@.node =~= self@.node);
        assert(views(r.initializer@) =~= views(self.initializer@));
        assert(views(r.input@) =~= views(self.input@));
        assert(views(r.output@) =~= views(self.output@));
        r
    }
}

impl AttributeProto {
    /// An attribute of the given name without a value.
    pub fn named(name: String) -> (r: Self)
        ensures
            r@ == AttributeView::empty(name@),
    {
        let r = AttributeProto {
            name,
            doc_string: String::new(),
            kind: 0,
            f: 0,
            i: 0,
            s: Vec::new(),
            t: None,
            g: None,
            floats: Vec::new(),
            ints: Vec::new(),
            strings: Vec::new(),
            tensors: Vec::new(),
            graphs: Vec::new(),
        };
        assert(views(r.strings@) =~= Seq::<Seq<u8>>::empty());
        assert(views(r.tensors@) =~= Seq::<TensorView>::empty());
        assert(r@.graphs =~= Seq::<GraphView>::empty());
        r
    }
}

impl Default for AttributeProto {
    fn default() -> (r: Self)
        ensures
            r@ == AttributeView::empty(Seq::empty()),
    {
        AttributeProto::named(String::new())
    }
}

impl Default for NodeProto {
    fn default() -> (r: Self)
        ensures
            r@ == NodeView::empty(),
    {
        let r = NodeProto {
            input: Vec::new(),
            output: Vec::new(),
            name: String::new(),
            op_type: String::new(),
            domain: String::new(),
            attribute: Vec::new(),
            doc_string: String::new(),
        };
        assert(views(r.input@) =~= Seq::<Seq<char>>::empty());
        assert(views(r.output@) =~= Seq::<Seq<char>>::empty());
        assert(r@.attribute =~= Seq::<AttributeView>::empty());
        r
    }
}

impl Default for GraphProto {
    fn default() -> (r: Self)
        ensures
            r@ == GraphView::empty(),
    {
        let r = GraphProto {
            node: Vec::new(),
            name: String::new(),
            initializer: Vec::new(),
            doc_string: String::new(),
            input: Vec::new(),
            output: Vec::new(),
        };
        assert(r@.node =~= Seq::<NodeView>::empty());
        assert(views(r.initializer@) =~= Seq::<TensorView>::empty());
        assert(views(r.input@) =~= Seq::<ValueInfoView>::empty());
        assert(views(r.output@) =~= Seq::<ValueInfoView>::empty());
        r
    }
}

/// An operator set that a model relies on: its domain (empty for the
/// default set) and its version.
#[derive(Debug, PartialEq)]
pub struct OperatorSetIdProto {
    pub domain: String,
    pub version: i64,
}

/// View of an [`OperatorSetIdProto`].
pub struct OperatorSetIdView {
    pub domain: Seq<char>,
    pub version: i64,
}

impl View for OperatorSetIdProto {
    type V = OperatorSetIdView;

    open spec fn view(&self) -> OperatorSetIdView {
        OperatorSetIdView { domain: self.domain@, version: self.version }
    }
}

impl Clone for OperatorSetIdProto {
    fn clone(&self) -> (r: Self)
        ensures
            r@ == self@,
    {
        OperatorSetIdProto { domain: self.domain.clone(), version: self.version }
    }
}

impl Default for OperatorSetIdProto {
    fn default() -> (r: Self)
        ensures
            r@ == (OperatorSetIdView { domain: Seq::empty(), version: 0 }),
    {
        OperatorSetIdProto { domain: String::new(), version: 0 }
    }
}

/// One entry of a model's free-form metadata.
#[derive(Debug, PartialEq)]
pub struct StringStringEntryProto {
    pub key: String,
    pub value: String,
}

/// View of a [`StringStringEntryProto`].
pub struct StringStringEntryView {
    pub key: Seq<char>,
    pub value: Seq<char>,
}

impl View for StringStringEntryProto {
    type V = StringStringEntryView;

    open spec fn view(&self) -> StringStringEntryView {
        StringStringEntryView { key: self.key@, value: self.value@ }
    }
}

impl Clone for StringStringEntryProto {
    fn clone(&self) -> (r: Self)
        ensures
            r@ == self@,
    {
        StringStringEntryProto { key: self.key.clone(), value: self.value.clone() }
    }
}

/// A model: a graph with the facts about who produced it and which operator
/// sets it relies on.
#[derive(Debug, PartialEq)]
pub struct ModelProto {
    pub ir_version: i64,
    pub opset_import: Vec<OperatorSetIdProto>,
    pub producer_name: String,
    pub producer_version: String,
    pub domain: String,
    pub model_version: i64,
    pub doc_string: String,
    pub graph: Option<GraphProto>,
    pub metadata_props: Vec<StringStringEntryProto>,
}

/// View of a [`ModelProto`].
pub struct ModelView {
    pub ir_version: i64,
    pub opset_import: Seq<OperatorSetIdView>,
    pub producer_name: Seq<char>,
    pub producer_version: Seq<char>,
    pub domain: Seq<char>,
    pub model_version: i64,
    pub doc_string: Seq<char>,
    pub graph: Option<GraphView>,
    pub metadata_props: Seq<StringStringEntryView>,
}

impl View for ModelProto {
    type V = ModelView;

    open spec fn view(&self) -> ModelView {
        ModelView {
            ir_version: self.ir_version,
            opset_import: views(self.opset_import@),
            producer_name: self.producer_name@,
            producer_version: self.producer_version@,
            domain: self.domain@,
            model_version: self.model_version,
            doc_string: self.doc_string@,
            graph: match self.graph {
                Some(g) => Some(g@),
                None => None,
            },
            metadata_props: views(self.metadata_props@),
        }
    }
}

impl Clone for ModelProto {
    fn clone(&self) -> (r: Self)
        ensures
            r@ == self@,
    {
        let r = ModelProto {
            ir_version: self.ir_version,
            opset_import: self.opset_import.clone(),
            producer_name: self.producer_name.clone(),
            producer_version: self.producer_version.clone(),
            domain: self.domain.clone(),
            model_version: self.model_version,
            doc_string: self.doc_string.clone(),
            graph: match &self.graph {
                Some(g) => Some(g.clone()),
                None => None,
            },
            metadata_props: self.metadata_props.clone(),
        };
        assert(views(r.opset_import@) =~= views(self.opset_import@));
        assert(views(r.metadata_props@) =~= views(self.metadata_props@));
        r
    }
}

} // verus!
