//! The in-memory model of a schema document.

use vstd::prelude::*;

use crate::model::views;

verus! {

/// Where a parameter is carried in a request.
#[derive(Debug, Clone, Copy, PartialEq, Eq, Structural)]
pub enum ParameterLocation {
    Path,
    Query,
}

impl ParameterLocation {
    /// Whether the parameter is substituted into the path template.
    pub fn path(self) -> (r: bool)
        ensures
            r == (self == ParameterLocation::Path),
    {
        matches!(self, ParameterLocation::Path)
    }

    /// Whether the parameter is sent in the query string.
    pub fn query(self) -> (r: bool)
        ensures
            r == (self == ParameterLocation::Query),
    {
        matches!(self, ParameterLocation::Query)
    }
}

/// The shape of a JSON value, as far as the generator tells shapes apart.
pub enum TypeShape {
    /// No recognised type tag: never resolves to a usable type.
    Unknown,
    Boolean,
    Text,
    Integer,
    Number,
    Array(Box<TypeShape>),
    Object(Seq<PropertyShape>),
}

/// One named member of an object shape.
pub struct PropertyShape {
    pub name: Seq<char>,
    pub shape: TypeShape,
}

/// Whether no text stands twice in `keys`.
pub open spec fn distinct(keys: Seq<Seq<char>>) -> bool {
    forall|i: int, j: int| 0 <= i < j < keys.len() ==> keys[i] != keys[j]
}

/// The names of the properties of an object, in order.
pub open spec fn property_names(properties: Seq<PropertyShape>) -> Seq<Seq<char>> {
    properties.map_values(|p: PropertyShape| p.name)
}

impl TypeShape {
    /// Whether the shape is one that a document can describe: in every
    /// object, however deep, each property name stands once. The lists of
    /// a schema stand for the mappings of the document, which hold no key
    /// twice.
    pub open spec fn well_formed(self) -> bool
        decreases self,
    {
        match self {
            TypeShape::Array(items) => items.well_formed(),
            TypeShape::Object(properties) => distinct(property_names(properties)) && forall|
                i: int,
            |
                0 <= i < properties.len() ==> (#[trigger] properties[i]).shape.well_formed(),
            _ => true,
        }
    }
}

/// A schema node: either tagged with a recognised type, or opaque.
#[derive(Debug, PartialEq)]
pub enum TypeSchema {
    Tagged(TaggedTypeSchema),
    /// A node without a recognised `type` key, kept with its raw entries.
    Empty(Vec<(String, String)>),
}

/// A schema node whose `type` tag is one of the supported ones.
#[derive(Debug, Clone, PartialEq)]
#[allow(inconsistent_fields)]
pub enum TaggedTypeSchema {
    /// Properties in the order in which the generator visits them.
    Object { properties: Vec<(String, TypeSchema)> },
    Boolean { default: Option<bool> },
    String { default: Option<String> },
    Integer { default: Option<i64> },
    /// The default, if any, is held as the IEEE-754 bit pattern of the number.
    Number { default: Option<u64> },
    Array { items: Box<TypeSchema> },
}

/// The shapes of the first `n` entries of `properties`, in order.
pub open spec fn properties_shape(properties: Seq<(String, TypeSchema)>, n: nat) -> Seq<
    PropertyShape,
>
    decreases properties, n,
{
    if n == 0 || n > properties.len() {
        Seq::empty()
    } else {
        properties_shape(properties, (n - 1) as nat).push(
            PropertyShape { name: properties[n - 1].0@, shape: properties[n - 1].1.shape() },
        )
    }
}

impl TypeSchema {
    /// The shape this node describes; defaults and raw entries play no part.
    pub open spec fn shape(self) -> TypeShape
        decreases self, 0nat,
    {
        match self {
            TypeSchema::Empty(_) => TypeShape::Unknown,
            TypeSchema::Tagged(tagged) => match tagged {
                TaggedTypeSchema::Object { properties } => TypeShape::Object(
                    properties_shape(properties@, properties@.len()),
                ),
                TaggedTypeSchema::Boolean { .. } => TypeShape::Boolean,
                TaggedTypeSchema::String { .. } => TypeShape::Text,
                TaggedTypeSchema::Integer { .. } => TypeShape::Integer,
                TaggedTypeSchema::Number { .. } => TypeShape::Number,
                TaggedTypeSchema::Array { items } => TypeShape::Array(Box::new(items.shape())),
            },
        }
    }
}

/// The shapes of a property list, entry by entry.
pub proof fn lemma_properties_shape(properties: Seq<(String, TypeSchema)>, n: nat)
    requires
        n <= properties.len(),
    ensures
        properties_shape(properties, n).len() == n,
        forall|i: int|
            0 <= i < n ==> #[trigger] properties_shape(properties, n)[i] == (PropertyShape {
                name: properties[i].0@,
                shape: properties[i].1.shape(),
            }),
    decreases n,
{
    if n > 0 {
        lemma_properties_shape(properties, (n - 1) as nat);
    }
}

impl TypeSchema {
    /// A copy of this node with all that lies below it.
    pub fn duplicate(&self) -> (copy: TypeSchema)
        ensures
            copy@ == self@,
        decreases self,
    {
        match self {
            TypeSchema::Empty(entries) => {
                let mut copies: Vec<(String, String)> = Vec::new();
                let mut i: usize = 0;
                while i < entries.len()
                    invariant
                        i <= entries.len(),
                    decreases entries.len() - i,
                {
                    copies.push((entries[i].0.clone(), entries[i].1.clone()));
                    i += 1;
                }
                TypeSchema::Empty(copies)
            },
            TypeSchema::Tagged(tagged) => match tagged {
                TaggedTypeSchema::Object { properties } => {
                    let mut copies: Vec<(String, TypeSchema)> = Vec::new();
                    let mut i: usize = 0;
                    while i < properties.len()
                        invariant
                            i <= properties.len(),
                            self == TypeSchema::Tagged(*tagged),
                            *tagged == (TaggedTypeSchema::Object { properties: *properties }),
                            copies@.len() == i,
                            forall|j: int|
                                0 <= j < i ==> (#[trigger] copies@[j]).0@ == properties@[j].0@
                                    && copies@[j].1.shape() == properties@[j].1.shape(),
                        decreases properties.len() - i,
                    {
                        proof {
                            vstd::std_specs::vec::axiom_vec_index_decreases(*properties, i as int);
                            assert(decreases_to!(*self => self->Tagged_0));
                            assert(decreases_to!(*tagged => tagged->properties));
                        }
                        let copy = properties[i].1.duplicate();
                        copies.push((properties[i].0.clone(), copy));
                        i += 1;
                    }
                    proof {
                        lemma_properties_shape(properties@, properties@.len());
                        lemma_properties_shape(copies@, copies@.len());
                        assert(properties_shape(copies@, copies@.len()) =~= properties_shape(
                            properties@,
                            properties@.len(),
                        ));
                    }
                    TypeSchema::Tagged(TaggedTypeSchema::Object { properties: copies })
                },
                TaggedTypeSchema::Boolean { default } => TypeSchema::Tagged(
                    TaggedTypeSchema::Boolean { default: *default },
                ),
                TaggedTypeSchema::String { default } => TypeSchema::Tagged(
                    TaggedTypeSchema::String {
                        default: match default {
                            Some(text) => Some(text.clone()),
                            None => None,
                        },
                    },
                ),
                TaggedTypeSchema::Integer { default } => TypeSchema::Tagged(
                    TaggedTypeSchema::Integer { default: *default },
                ),
                TaggedTypeSchema::Number { default } => TypeSchema::Tagged(
                    TaggedTypeSchema::Number { default: *default },
                ),
                TaggedTypeSchema::Array { items } => TypeSchema::Tagged(
                    TaggedTypeSchema::Array { items: Box::new(items.duplicate()) },
                ),
            },
        }
    }
}

impl Clone for TypeSchema {
    fn clone(&self) -> (copy: TypeSchema)
        ensures
            copy@ == self@,
    {
        self.duplicate()
    }
}

impl View for TypeSchema {
    type V = TypeShape;

    open spec fn view(&self) -> TypeShape {
        self.shape()
    }
}

/// The schema of one media type of a response.
#[derive(Debug, Clone, PartialEq)]
pub struct ResponseSchema {
    pub schema: TypeSchema,
}

/// One response of a route.
#[derive(Debug, Clone, PartialEq)]
pub struct PathRouteResponse {
    pub description: String,
    /// Media type and schema, entry by entry.
    pub content: Vec<(String, ResponseSchema)>,
}

/// What the generator reads of a response: its status code and the shapes of
/// its content entries.
pub struct ResponseModel {
    pub status: Seq<char>,
    pub content: Seq<TypeShape>,
}

/// The response model of a status code and its response.
pub open spec fn response_model(entry: (String, PathRouteResponse)) -> ResponseModel {
    ResponseModel {
        status: entry.0@,
        content: entry.1.content@.map_values(|c: (String, ResponseSchema)| c.1.schema@),
    }
}

/// The response models of the responses of a route, in order.
pub open spec fn response_models(entries: Seq<(String, PathRouteResponse)>) -> Seq<ResponseModel> {
    entries.map_values(|entry: (String, PathRouteResponse)| response_model(entry))
}

/// One parameter of a route.
#[derive(Debug, Clone, PartialEq)]
pub struct PathRouteParameter {
    pub name: String,
    /// Whether the value goes into the path or into the query string.
    pub location: ParameterLocation,
    pub schema: TypeSchema,
    pub description: Option<String>,
    pub required: bool,
}

/// What the generator reads of a parameter.
pub struct ParameterModel {
    pub name: Seq<char>,
    pub location: ParameterLocation,
    pub shape: TypeShape,
    pub description: Option<Seq<char>>,
    pub required: bool,
}

impl View for PathRouteParameter {
    type V = ParameterModel;

    open spec fn view(&self) -> ParameterModel {
        ParameterModel {
            name: self.name@,
            location: self.location,
            shape: self.schema@,
            description: match self.description {
                Some(text) => Some(text@),
                None => None,
            },
            required: self.required,
        }
    }
}

/// The single read route of a path.
#[derive(Debug, Clone, PartialEq)]
pub struct PathRoute {
    /// The identifier of the operation; the generated names derive from it.
    pub operation_id: String,
    pub summary: String,
    pub description: String,
    pub parameters: Vec<PathRouteParameter>,
    /// Status code and response, in the order in which the generator visits
    /// them.
    pub responses: Vec<(String, PathRouteResponse)>,
    pub deprecated: bool,
}

/// What the generator reads of a route.
pub struct RouteModel {
    pub operation_id: Seq<char>,
    pub summary: Seq<char>,
    pub description: Seq<char>,
    pub parameters: Seq<ParameterModel>,
    pub responses: Seq<ResponseModel>,
}

/// The status codes of the responses of a route, in order.
pub open spec fn statuses(responses: Seq<ResponseModel>) -> Seq<Seq<char>> {
    responses.map_values(|r: ResponseModel| r.status)
}

impl RouteModel {
    /// Whether the route is one that a document can describe: no status
    /// code stands twice, and every shape is well formed.
    pub open spec fn well_formed(self) -> bool {
        &&& forall|i: int|
            0 <= i < self.parameters.len() ==> (#[trigger] self.parameters[i]).shape.well_formed()
        &&& distinct(statuses(self.responses))
        &&& forall|j: int, k: int|
            0 <= j < self.responses.len() && 0 <= k < self.responses[j].content.len()
                ==> (#[trigger] self.responses[j].content[k]).well_formed()
    }
}

impl View for PathRoute {
    type V = RouteModel;

    open spec fn view(&self) -> RouteModel {
        RouteModel {
            operation_id: self.operation_id@,
            summary: self.summary@,
            description: self.description@,
            parameters: views(self.parameters@),
            responses: response_models(self.responses@),
        }
    }
}

/// What a path template offers; only reading is supported.
#[derive(Debug, Clone, PartialEq)]
pub struct SchemaPath {
    pub get: Option<PathRoute>,
}

/// A path template with its read route, if it has one.
pub struct PathModel {
    pub path: Seq<char>,
    pub get: Option<RouteModel>,
}

/// The path model of a path template and its entry.
pub open spec fn path_model(entry: (String, SchemaPath)) -> PathModel {
    PathModel {
        path: entry.0@,
        get: match entry.1.get {
            Some(route) => Some(route@),
            None => None,
        },
    }
}

/// The path models of the paths of a document, in order.
pub open spec fn path_models(entries: Seq<(String, SchemaPath)>) -> Seq<PathModel> {
    entries.map_values(|entry: (String, SchemaPath)| path_model(entry))
}

/// The paths of a document, in the order in which the generator visits them.
#[derive(Debug, Clone, PartialEq)]
pub struct SchemaPaths(pub Vec<(String, SchemaPath)>);

/// Title and version of the described interface.
#[derive(Debug, Clone, PartialEq, Eq)]
pub struct SchemaInfo {
    pub title: String,
    pub version: String,
}

/// One base address under which the interface is served.
#[derive(Debug, Clone, PartialEq, Eq)]
pub struct SchemaServerUrl {
    pub url: String,
}

/// The base addresses of a document; the first one is the active one.
#[derive(Debug, Clone, PartialEq, Eq)]
pub struct SchemaServers(pub Vec<SchemaServerUrl>);

/// A schema document.
#[derive(Debug, Clone, PartialEq)]
pub struct Schema {
    pub info: SchemaInfo,
    pub servers: SchemaServers,
    pub paths: SchemaPaths,
}

/// What the generator reads of a document.
pub struct SchemaModel {
    /// The base addresses, the active one first.
    pub servers: Seq<Seq<char>>,
    pub paths: Seq<PathModel>,
}

/// The path templates of a document, in order.
pub open spec fn templates(paths: Seq<PathModel>) -> Seq<Seq<char>> {
    paths.map_values(|p: PathModel| p.path)
}

impl SchemaModel {
    /// Whether the document is well formed: no path template stands twice,
    /// and every read route is well formed.
    pub open spec fn well_formed(self) -> bool {
        &&& distinct(templates(self.paths))
        &&& forall|k: int|
            0 <= k < self.paths.len() ==> ((#[trigger] self.paths[k]).get matches Some(route)
                ==> route.well_formed())
    }
}

impl View for Schema {
    type V = SchemaModel;

    open spec fn view(&self) -> SchemaModel {
        SchemaModel {
            servers: self.servers.0@.map_values(|s: SchemaServerUrl| s.url@),
            paths: path_models(self.paths.0@),
        }
    }
}

} // verus!
