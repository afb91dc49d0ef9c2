//! Model builder.

use vstd::prelude::*;
use vstd::std_specs::convert::FromSpecImpl;

use crate::builder::node::text_or_empty;
use crate::proto::{
    views, GraphProto, ModelProto, ModelView, OperatorSetIdProto, OperatorSetIdView,
    StringStringEntryProto, StringStringEntryView,
};

verus! {

/// The version of the default operator set that a model relies on when it
/// names no other.
pub const DEFAULT_OPSET_ID_VERSION: i64 = 11;

/// The version of the description format that built models declare.
pub const IR_VERSION: i64 = 6;

/// Model builder.
#[derive(Clone, Debug)]
pub struct Model {
    pub graph: GraphProto,
    pub domain: Option<String>,
    pub model_version: Option<i64>,
    pub producer_name: Option<String>,
    pub producer_version: Option<String>,
    pub doc_string: Option<String>,
    pub metadata: Vec<(String, String)>,
    pub opset_imports: Option<Vec<OperatorSetIdProto>>,
}

/// The metadata entries of a list of pairs, in their order. A key may occur
/// more than once.
pub open spec fn entries(metadata: Seq<(String, String)>) -> Seq<StringStringEntryView> {
    Seq::new(
        metadata.len(),
        |k: int| StringStringEntryView { key: metadata[k].0@, value: metadata[k].1@ },
    )
}

/// The one operator set of a model that names none: the default domain at
/// the default version.
pub open spec fn default_opset() -> OperatorSetIdView {
    OperatorSetIdView { domain: Seq::empty(), version: DEFAULT_OPSET_ID_VERSION }
}

impl Model {
    /// The record that `build` makes of the builder: what was not set is
    /// empty or zero, and a model without operator sets gets the default
    /// one.
    pub open spec fn built(&self) -> ModelView {
        ModelView {
            ir_version: IR_VERSION,
            graph: Some(self.graph@),
            domain: text_or_empty(self.domain),
            doc_string: text_or_empty(self.doc_string),
            producer_name: text_or_empty(self.producer_name),
            producer_version: text_or_empty(self.producer_version),
            model_version: match self.model_version {
                Some(v) => v,
                None => 0,
            },
            opset_import: match self.opset_imports {
                Some(sets) => views(sets@),
                None => seq![default_opset()],
            },
            metadata_props: entries(self.metadata@),
        }
    }

    /// Creates a new builder.
    pub fn new(graph: GraphProto) -> (r: Self)
        ensures
            r.graph == graph,
            r.domain is None,
            r.model_version is None,
            r.producer_name is None,
            r.producer_version is None,
            r.doc_string is None,
            r.metadata@.len() == 0,
            r.opset_imports is None,
    {
        Model {
            graph,
            domain: None,
            model_version: None,
            producer_name: None,
            producer_version: None,
            doc_string: None,
            metadata: Vec::new(),
            opset_imports: None,
        }
    }

    /// Sets model domain.
    pub fn domain(self, domain: &str) -> (r: Self)
        ensures
            r.domain matches Some(d) && d@ == domain@,
            r == (Model { domain: r.domain, ..self }),
    {
        let mut model = self;
        model.domain = Some(domain.to_owned());
        model
    }

    /// Sets model version.
    pub fn model_version(self, model_version: i64) -> (r: Self)
        ensures
            r == (Model { model_version: Some(model_version), ..self }),
    {
        let mut model = self;
        model.model_version = Some(model_version);
        model
    }

    /// Sets the name of the model's producer.
    pub fn producer_name(self, producer_name: &str) -> (r: Self)
        ensures
            r.producer_name matches Some(d) && d@ == producer_name@,
            r == (Model { producer_name: r.producer_name, ..self }),
    {
        let mut model = self;
        model.producer_name = Some(producer_name.to_owned());
        model
    }

    /// Sets the version of the model's producer.
    pub fn producer_version(self, producer_version: &str) -> (r: Self)
        ensures
            r.producer_version matches Some(d) && d@ == producer_version@,
            r == (Model { producer_version: r.producer_version, ..self }),
    {
        let mut model = self;
        model.producer_version = Some(producer_version.to_owned());
        model
    }

    /// Sets model doc_string.
    pub fn doc_string(self, doc_string: &str) -> (r: Self)
        ensures
            r.doc_string matches Some(d) && d@ == doc_string@,
            r == (Model { doc_string: r.doc_string, ..self }),
    {
        let mut model = self;
        model.doc_string = Some(doc_string.to_owned());
        model
    }

    /// Inserts model metadata. Entries only accumulate: a key that is there
    /// already is entered again.
    pub fn metadata(self, key: &str, value: &str) -> (r: Self)
        ensures
            entries(r.metadata@) == entries(self.metadata@).push(
                StringStringEntryView { key: key@, value: value@ },
            ),
            r == (Model { metadata: r.metadata, ..self }),
    {
        let mut model = self;
        model.metadata.push((key.to_owned(), value.to_owned()));
        assert(entries(model.metadata@) =~= entries(self.metadata@).push(
            StringStringEntryView { key: key@, value: value@ },
        ));
        model
    }

    /// Inserts operator set import.
    pub fn opset_import(self, opset: OperatorSetIdProto) -> (r: Self)
        ensures
            r.opset_imports matches Some(sets) && sets@ == match self.opset_imports {
                Some(before) => before@.push(opset),
                None => seq![opset],
            },
            r == (Model { opset_imports: r.opset_imports, ..self }),
    {
        let mut model = self;
        let mut sets = match model.opset_imports {
            Some(sets) => sets,
            None => Vec::new(),
        };
        sets.push(opset);
        proof {
            if self.opset_imports is None {
                assert(sets@ =~= seq![opset]);
            }
        }
        model.opset_imports = Some(sets);
        model
    }

    /// Builds the model.
    pub fn build(self) -> (r: ModelProto)
        ensures
            r@ == self.built(),
    {
        let opset_import = match self.opset_imports {
            Some(sets) => sets,
            None => {
                let mut sets: Vec<OperatorSetIdProto> = Vec::new();
                sets.push(OperatorSetIdProto { domain: String::new(), version: DEFAULT_OPSET_ID_VERSION });
                assert(views(sets@) =~= seq![default_opset()]);
                sets
            },
        };
        let mut metadata_props: Vec<StringStringEntryProto> = Vec::new();
        for pair in it: self.metadata
            invariant
                it.seq() == self.metadata@,
                metadata_props.len() == it.index(),
                forall|j: int|
                    0 <= j < it.index() ==> (#[trigger] metadata_props@[j])@ == entries(
                        self.metadata@,
                    )[j],
        {
            let (key, value) = pair;
            metadata_props.push(StringStringEntryProto { key, value });
        }
        proof {
            assert(views(metadata_props@) =~= entries(self.metadata@));
        }
        ModelProto {
            ir_version: IR_VERSION,
            graph: Some(self.graph),
            domain: match self.domain {
                Some(d) => d,
                None => String::new(),
            },
            doc_string: match self.doc_string {
                Some(d) => d,
                None => String::new(),
            },
            producer_name: match self.producer_name {
                Some(d) => d,
                None => String::new(),
            },
            producer_version: match self.producer_version {
                Some(d) => d,
                None => String::new(),
            },
            model_version: match self.model_version {
                Some(v) => v,
                None => 0,
            },
            opset_import,
            metadata_props,
        }
    }
}

impl From<Model> for ModelProto {
    fn from(model: Model) -> (r: Self)
        ensures
            r@ == model.built(),
    {
        model.build()
    }
}

impl FromSpecImpl<Model> for ModelProto {
    open spec fn obeys_from_spec() -> bool {
        false
    }

    open spec fn from_spec(model: Model) -> ModelProto {
        arbitrary()
    }
}

} // verus!
