//! Type resolution: from a schema node and a namespace to the definitions the
//! generated client needs, dependencies first.

use vstd::prelude::*;
use vstd::string::*;

use crate::casing::{converted, to_case, Case};
use crate::model::{lemma_views_concat, lemma_views_empty, lemma_views_push, views};
use crate::schema::{
    lemma_properties_shape, path_models, ParameterModel, PathModel, PathRoute,
    PropertyShape, ResponseModel, RouteModel, Schema, TaggedTypeSchema, TypeSchema, TypeShape,
};
use crate::text::{replace_char, replaced_char, same_text};

verus! {

/// One type of the generated client.
#[derive(Debug, Clone, PartialEq, Eq)]
pub struct TypeDefinition {
    /// The identifier of the owned form.
    pub name: String,
    /// The identifier of the borrowed form, used for parameters.
    pub ref_name: String,
    /// The declaration to emit; absent for primitives and sequences.
    pub definition: Option<String>,
}

/// The mathematical content of a [`TypeDefinition`].
pub struct TypeDefinitionView {
    pub name: Seq<char>,
    pub ref_name: Seq<char>,
    pub definition: Option<Seq<char>>,
}

impl View for TypeDefinition {
    type V = TypeDefinitionView;

    open spec fn view(&self) -> TypeDefinitionView {
        TypeDefinitionView {
            name: self.name@,
            ref_name: self.ref_name@,
            definition: match self.definition {
                Some(text) => Some(text@),
                None => None,
            },
        }
    }
}

/// `name` placed under `namespace`: joined by an underscore, unless the
/// namespace is empty.
pub open spec fn combined(namespace: Seq<char>, name: Seq<char>) -> Seq<char> {
    if namespace.len() == 0 {
        name
    } else {
        namespace + "_"@ + name
    }
}

/// The identifier under which a schema name is passed as a parameter: dots
/// become underscores, then the name is put in snake case.
pub open spec fn parameter_identifier(name: Seq<char>) -> Seq<char> {
    converted(replaced_char(name, '.', '_'), Case::Snake)
}

/// The identifier of a struct field: the parameter identifier, written as a
/// raw identifier where it collides with a keyword.
pub open spec fn field_identifier(name: Seq<char>) -> Seq<char> {
    let snake = parameter_identifier(name);
    if snake == "type"@ || snake == "do"@ || snake == "in"@ {
        "r#"@ + snake
    } else {
        snake
    }
}

/// A definition without declaration whose two forms share one identifier.
pub open spec fn primitive(name: Seq<char>) -> TypeDefinitionView {
    TypeDefinitionView { name, ref_name: name, definition: None }
}

/// The definition of text: an owned buffer, borrowed as a slice.
pub open spec fn text_definition() -> TypeDefinitionView {
    TypeDefinitionView { name: "String"@, ref_name: "&str"@, definition: None }
}

/// The definition of a sequence of `item`, borrowed as a slice of items.
pub open spec fn sequence_of(item: Seq<char>) -> TypeDefinitionView {
    TypeDefinitionView {
        name: "Vec<"@ + item + ">"@,
        ref_name: "&["@ + item + "]"@,
        definition: None,
    }
}

/// The lines that declare one field, with its rule for decoding an absent
/// or null value as the type's default.
pub open spec fn field_text(identifier: Seq<char>, member_type: Seq<char>) -> Seq<char> {
    "#[serde(default, deserialize_with = \"null_to_default\")]\n"@ + "    pub "@ + identifier
        + ": "@ + member_type + ",\n"@
}

/// The definition of a struct called `name` whose fields are `fields`.
pub open spec fn struct_definition(name: Seq<char>, fields: Seq<char>) -> TypeDefinitionView {
    TypeDefinitionView {
        name,
        ref_name: name,
        definition: Some("pub struct "@ + name + " {\n"@ + fields + "}\n"@),
    }
}

/// What the members of an object contribute to its struct.
pub struct Members {
    /// The definitions the resolved members need, in member order.
    pub definitions: Seq<TypeDefinitionView>,
    /// The field declarations of the resolved members.
    pub fields: Seq<char>,
    /// How many members resolved.
    pub count: nat,
}

/// The contribution of the first `n` properties of an object named `owner`.
/// A property that does not resolve contributes nothing.
pub open spec fn resolved_members(properties: Seq<PropertyShape>, owner: Seq<char>, n: nat) -> Members
    decreases properties, n,
{
    if n == 0 || n > properties.len() {
        Members { definitions: Seq::empty(), fields: Seq::empty(), count: 0 }
    } else {
        let before = resolved_members(properties, owner, (n - 1) as nat);
        let property = properties[n - 1];
        let own = resolve(property.shape, combined(owner, property.name));
        if own.len() == 0 {
            before
        } else {
            Members {
                definitions: before.definitions + own,
                fields: before.fields + field_text(field_identifier(property.name), own.last().name),
                count: before.count + 1,
            }
        }
    }
}

/// The definitions for a value of shape `shape` under the namespace `name`,
/// dependencies first and the type of the value itself last. The empty list
/// says that the value cannot be typed: whatever refers to it is dropped.
pub open spec fn resolve(shape: TypeShape, name: Seq<char>) -> Seq<TypeDefinitionView>
    decreases shape, 0nat,
{
    match shape {
        TypeShape::Unknown => Seq::empty(),
        TypeShape::Boolean => seq![primitive("bool"@)],
        TypeShape::Text => seq![text_definition()],
        TypeShape::Integer => seq![primitive("i64"@)],
        TypeShape::Number => seq![primitive("f64"@)],
        TypeShape::Array(items) => {
            let inner = resolve(*items, name);
            if inner.len() == 0 {
                Seq::empty()
            } else {
                inner.push(sequence_of(inner.last().name))
            }
        },
        TypeShape::Object(properties) => {
            let owner = converted(name, Case::Pascal);
            let members = resolved_members(properties, owner, properties.len());
            if members.count == 0 {
                Seq::empty()
            } else {
                members.definitions.push(struct_definition(owner, members.fields))
            }
        },
    }
}

/// Places `name` under `namespace`.
pub fn combine(namespace: &str, name: &str) -> (result: String)
    ensures
        result@ == combined(namespace@, name@),
{
    if namespace.unicode_len() == 0 {
        name.to_owned()
    } else {
        let mut result = namespace.to_owned();
        result.append("_");
        result.append(name);
        result
    }
}

/// The identifier under which the schema name `name` is passed as a parameter.
pub fn parameter_name(name: &str) -> (result: String)
    ensures
        result@ == parameter_identifier(name@),
{
    let undotted = replace_char(name, '.', '_');
    to_case(undotted.as_str(), Case::Snake)
}

/// The identifier of the struct field for the schema name `name`.
pub fn field_name(name: &str) -> (result: String)
    ensures
        result@ == field_identifier(name@),
{
    let snake = parameter_name(name);
    if same_text(snake.as_str(), "type") || same_text(snake.as_str(), "do") || same_text(
        snake.as_str(),
        "in",
    ) {
        let mut result = "r#".to_owned();
        result.append(snake.as_str());
        result
    } else {
        snake
    }
}

impl TypeDefinition {
    /// Resolves `schema` under the namespace `name`.
    ///
    /// The result lists the definitions of the types the value refers to
    /// before the type of the value itself. It is empty where the value
    /// cannot be typed: for a node without a recognised type, for an array of
    /// such items, and for an object none of whose properties resolves.
    pub fn from_type_schema(schema: &TypeSchema, name: String) -> (result: Vec<TypeDefinition>)
        ensures
            views(result@) == resolve(schema@, name@),
        decreases schema,
    {
        match schema {
            TypeSchema::Empty(_) => {
                let result: Vec<TypeDefinition> = Vec::new();
                proof {
                    lemma_views_empty(result@);
                }
                result
            },
            TypeSchema::Tagged(tagged) => match tagged {
                TaggedTypeSchema::Object { properties } => {
                    let owner = to_case(name.as_str(), Case::Pascal);
                    let ghost shapes = schema@->Object_0;
                    proof {
                        lemma_properties_shape(properties@, properties@.len());
                    }
                    let mut result: Vec<TypeDefinition> = Vec::new();
                    let mut fields = String::new();
                    let mut any = false;
                    let mut i: usize = 0;
                    proof {
                        lemma_views_empty(result@);
                    }
                    while i < properties.len()
                        invariant
                            i <= properties.len(),
                            schema == TypeSchema::Tagged(*tagged),
                            *tagged == (TaggedTypeSchema::Object { properties: *properties }),
                            shapes.len() == properties.len(),
                            forall|j: int|
                                0 <= j < shapes.len() ==> #[trigger] shapes[j] == (PropertyShape {
                                    name: properties@[j].0@,
                                    shape: properties@[j].1.shape(),
                                }),
                            views(result@) == resolved_members(shapes, owner@, i as nat).definitions,
                            fields@ == resolved_members(shapes, owner@, i as nat).fields,
                            any == (resolved_members(shapes, owner@, i as nat).count > 0),
                        decreases properties.len() - i,
                    {
                        let property = &properties[i];
                        proof {
                            vstd::std_specs::vec::axiom_vec_index_decreases(*properties, i as int);
                            assert(decreases_to!(*schema => schema->Tagged_0));
                            assert(decreases_to!(*tagged => tagged->properties));
                        }
                        let mut own = TypeDefinition::from_type_schema(
                            &property.1,
                            combine(owner.as_str(), property.0.as_str()),
                        );
                        proof {
                            assert(shapes[i as int].shape == property.1@);
                            assert(shapes[i as int].name == property.0@);
                        }
                        if own.len() > 0 {
                            let identifier = field_name(property.0.as_str());
                            let member_type = own[own.len() - 1].name.clone();
                            proof {
                                lemma_views_concat(result@, own@);
                                assert(views(own@).last() == own@[own.len() - 1]@);
                            }
                            result.append(&mut own);
                            let mut line =
                                "#[serde(default, deserialize_with = \"null_to_default\")]\n".to_owned();
                            line.append("    pub ");
                            line.append(identifier.as_str());
                            line.append(": ");
                            line.append(member_type.as_str());
                            line.append(",\n");
                            fields.append(line.as_str());
                            any = true;
                        }
                        i += 1;
                    }
                    if !any {
                        let result: Vec<TypeDefinition> = Vec::new();
                        proof {
                            lemma_views_empty(result@);
                        }
                        return result;
                    }
                    let mut definition = "pub struct ".to_owned();
                    definition.append(owner.as_str());
                    definition.append(" {\n");
                    definition.append(fields.as_str());
                    definition.append("}\n");
                    let own = TypeDefinition {
                        ref_name: owner.clone(),
                        name: owner,
                        definition: Some(definition),
                    };
                    proof {
                        lemma_views_push(result@, own);
                    }
                    result.push(own);
                    result
                },
                TaggedTypeSchema::Boolean { .. } => TypeDefinition::scalar("bool"),
                TaggedTypeSchema::String { .. } => {
                    let own = TypeDefinition {
                        ref_name: "&str".to_owned(),
                        name: "String".to_owned(),
                        definition: None,
                    };
                    let mut result: Vec<TypeDefinition> = Vec::new();
                    result.push(own);
                    proof {
                        assert(views(result@) =~= seq![text_definition()]);
                    }
                    result
                },
                TaggedTypeSchema::Integer { .. } => TypeDefinition::scalar("i64"),
                TaggedTypeSchema::Number { .. } => TypeDefinition::scalar("f64"),
                TaggedTypeSchema::Array { items } => {
                    let mut result = TypeDefinition::from_type_schema(items, name);
                    if result.len() == 0 {
                        return result;
                    }
                    let item = result[result.len() - 1].name.clone();
                    let mut ref_name = "&[".to_owned();
                    ref_name.append(item.as_str());
                    ref_name.append("]");
                    let mut owned_name = "Vec<".to_owned();
                    owned_name.append(item.as_str());
                    owned_name.append(">");
                    let own = TypeDefinition { ref_name, name: owned_name, definition: None };
                    proof {
                        lemma_views_push(result@, own);
                        assert(views(result@).last() == result@[result.len() - 1]@);
                    }
                    result.push(own);
                    result
                },
            },
        }
    }

    /// The single definition of a primitive called `name`.
    fn scalar(name: &str) -> (result: Vec<TypeDefinition>)
        ensures
            views(result@) == seq![primitive(name@)],
    {
        let own = TypeDefinition { ref_name: name.to_owned(), name: name.to_owned(), definition: None };
        let mut result: Vec<TypeDefinition> = Vec::new();
        result.push(own);
        proof {
            assert(views(result@) =~= seq![primitive(name@)]);
        }
        result
    }
}

/// The definitions for the first `n` parameters of a route, each resolved
/// under its schema name within `namespace`.
pub open spec fn parameter_definitions(
    parameters: Seq<ParameterModel>,
    namespace: Seq<char>,
    n: nat,
) -> Seq<TypeDefinitionView>
    decreases n,
{
    if n == 0 || n > parameters.len() {
        Seq::empty()
    } else {
        parameter_definitions(parameters, namespace, (n - 1) as nat) + resolve(
            parameters[n - 1].shape,
            combined(namespace, parameters[n - 1].name),
        )
    }
}

/// The definitions for the first `n` content entries of a response, all
/// resolved under `name`.
pub open spec fn content_definitions(content: Seq<TypeShape>, name: Seq<char>, n: nat) -> Seq<
    TypeDefinitionView,
>
    decreases n,
{
    if n == 0 || n > content.len() {
        Seq::empty()
    } else {
        content_definitions(content, name, (n - 1) as nat) + resolve(content[n - 1], name)
    }
}

/// The namespace of the response with the given status code.
pub open spec fn response_namespace(namespace: Seq<char>, status: Seq<char>) -> Seq<char> {
    combined(namespace, "Response"@ + status)
}

/// The definitions for the first `n` responses of a route.
pub open spec fn response_definitions(
    responses: Seq<ResponseModel>,
    namespace: Seq<char>,
    n: nat,
) -> Seq<TypeDefinitionView>
    decreases n,
{
    if n == 0 || n > responses.len() {
        Seq::empty()
    } else {
        response_definitions(responses, namespace, (n - 1) as nat) + content_definitions(
            responses[n - 1].content,
            response_namespace(namespace, responses[n - 1].status),
            responses[n - 1].content.len(),
        )
    }
}

/// The definitions a route needs: those of its parameters, then those of
/// its responses.
pub open spec fn route_definitions(route: RouteModel, namespace: Seq<char>) -> Seq<
    TypeDefinitionView,
> {
    parameter_definitions(route.parameters, namespace, route.parameters.len())
        + response_definitions(route.responses, namespace, route.responses.len())
}

/// The definitions the read routes of the first `n` paths need, each route
/// under its operation identifier.
pub open spec fn collected_definitions(paths: Seq<PathModel>, n: nat) -> Seq<TypeDefinitionView>
    decreases n,
{
    if n == 0 || n > paths.len() {
        Seq::empty()
    } else {
        let before = collected_definitions(paths, (n - 1) as nat);
        match paths[n - 1].get {
            None => before,
            Some(route) => before + route_definitions(route, route.operation_id),
        }
    }
}

/// Appends to `result` the definitions that the route `get` needs under
/// `namespace`.
pub fn collect_types_in_path_route(
    get: &PathRoute,
    result: &mut Vec<TypeDefinition>,
    namespace: String,
)
    ensures
        views(final(result)@) == views(old(result)@) + route_definitions(get@, namespace@),
{
    let ghost before = views(result@);
    let mut i: usize = 0;
    proof {
        assert(before + Seq::<TypeDefinitionView>::empty() =~= before);
    }
    while i < get.parameters.len()
        invariant
            i <= get.parameters.len(),
            views(result@) == before + parameter_definitions(
                get@.parameters,
                namespace@,
                i as nat,
            ),
        decreases get.parameters.len() - i,
    {
        let parameter = &get.parameters[i];
        proof {
            assert(get@.parameters[i as int] == parameter@);
        }
        let mut own = TypeDefinition::from_type_schema(
            &parameter.schema,
            combine(namespace.as_str(), parameter.name.as_str()),
        );
        proof {
            lemma_views_concat(result@, own@);
            assert((before + parameter_definitions(get@.parameters, namespace@, i as nat))
                + views(own@) =~= before + parameter_definitions(
                get@.parameters,
                namespace@,
                (i + 1) as nat,
            ));
        }
        result.append(&mut own);
        i += 1;
    }
    let ghost middle = views(result@);
    let mut j: usize = 0;
    proof {
        assert(middle + Seq::<TypeDefinitionView>::empty() =~= middle);
    }
    while j < get.responses.len()
        invariant
            j <= get.responses.len(),
            middle == before + parameter_definitions(
                get@.parameters,
                namespace@,
                get@.parameters.len(),
            ),
            views(result@) == middle + response_definitions(get@.responses, namespace@, j as nat),
        decreases get.responses.len() - j,
    {
        let entry = &get.responses[j];
        let ghost model = get@.responses[j as int];
        proof {
            assert(model.status == entry.0@);
        }
        let mut label = "Response".to_owned();
        label.append(entry.0.as_str());
        let name = combine(namespace.as_str(), label.as_str());
        let ghost start = views(result@);
        let mut k: usize = 0;
        proof {
            assert(start + Seq::<TypeDefinitionView>::empty() =~= start);
        }
        while k < entry.1.content.len()
            invariant
                k <= entry.1.content.len(),
                model.content.len() == entry.1.content@.len(),
                forall|c: int|
                    0 <= c < model.content.len() ==> #[trigger] model.content[c]
                        == entry.1.content@[c].1.schema@,
                views(result@) == start + content_definitions(model.content, name@, k as nat),
            decreases entry.1.content.len() - k,
        {
            let mut own = TypeDefinition::from_type_schema(
                &entry.1.content[k].1.schema,
                name.clone(),
            );
            proof {
                lemma_views_concat(result@, own@);
                assert(model.content[k as int] == entry.1.content@[k as int].1.schema@);
                assert((start + content_definitions(model.content, name@, k as nat)) + views(own@)
                    =~= start + content_definitions(model.content, name@, (k + 1) as nat));
            }
            result.append(&mut own);
            k += 1;
        }
        proof {
            assert((middle + response_definitions(get@.responses, namespace@, j as nat))
                + content_definitions(model.content, name@, model.content.len()) =~= middle
                + response_definitions(get@.responses, namespace@, (j + 1) as nat));
        }
        j += 1;
    }
    proof {
        assert((before + parameter_definitions(
            get@.parameters,
            namespace@,
            get@.parameters.len(),
        )) + response_definitions(get@.responses, namespace@, get@.responses.len()) =~= before
            + route_definitions(get@, namespace@));
    }
}

/// The definitions that the read routes of `schema` need, in the order of
/// its paths.
pub fn collect_types_for(schema: &Schema) -> (result: Vec<TypeDefinition>)
    ensures
        views(result@) == collected_definitions(schema@.paths, schema@.paths.len()),
{
    let paths = &schema.paths.0;
    let mut result: Vec<TypeDefinition> = Vec::new();
    let mut i: usize = 0;
    proof {
        lemma_views_empty(result@);
    }
    while i < paths.len()
        invariant
            i <= paths.len(),
            schema@.paths == path_models(paths@),
            views(result@) == collected_definitions(schema@.paths, i as nat),
        decreases paths.len() - i,
    {
        let entry = &paths[i];
        let ghost model = schema@.paths[i as int];
        match &entry.1.get {
            None => {
                proof {
                    assert(model.get is None);
                }
            },
            Some(get) => {
                proof {
                    assert(model.get == Some(get@));
                }
                collect_types_in_path_route(get, &mut result, get.operation_id.clone());
            },
        }
        i += 1;
    }
    result
}

} // verus!
