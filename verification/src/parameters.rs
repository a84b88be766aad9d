//! Parameter aggregation: one options type per operation, bundling its
//! optional parameters.

use vstd::prelude::*;
use vstd::string::*;

use crate::casing::{converted, to_case, Case};
use crate::model::{lemma_views_empty, lemma_views_push, views};
use crate::schema::{
    path_models, ParameterModel, PathModel, PathRoute, PathRouteParameter, Schema, TypeShape,
};
use crate::text::{same_text, strip_prefix, stripped_prefix};
use crate::types::{
    combine, combined, field_identifier, field_name, resolve, TypeDefinition, TypeDefinitionView,
};

verus! {

/// Whether a value of this shape is text, so that an options type holding
/// it borrows.
pub open spec fn is_text(shape: TypeShape) -> bool {
    let definitions = resolve(shape, Seq::empty());
    definitions.len() > 0 && definitions.last().name == "String"@
}

/// Whether one of the optional parameters among the first `n` is text.
pub open spec fn needs_references(parameters: Seq<ParameterModel>, n: nat) -> bool
    decreases n,
{
    if n == 0 || n > parameters.len() {
        false
    } else {
        needs_references(parameters, (n - 1) as nat) || (!parameters[n - 1].required && is_text(
            parameters[n - 1].shape,
        ))
    }
}

/// The type of an optional field: a borrowed form becomes a value that is
/// either borrowed or owned, any other form stays.
pub open spec fn option_field_type(ref_name: Seq<char>) -> Seq<char> {
    match stripped_prefix(ref_name, '&') {
        Some(rest) => "std::borrow::Cow<'a, "@ + rest + ">"@,
        None => ref_name,
    }
}

/// The documentation line of a field, if the parameter has a description.
pub open spec fn description_text(description: Option<Seq<char>>) -> Seq<char> {
    match description {
        Some(text) => "    /// "@ + text + "\n"@,
        None => Seq::empty(),
    }
}

/// The lines that declare the field of one optional parameter, which
/// defaults to absent.
pub open spec fn option_field_text(parameter: ParameterModel, ref_name: Seq<char>) -> Seq<char> {
    description_text(parameter.description) + "    #[serde(default)]\n"@ + "    pub "@
        + field_identifier(parameter.name) + ": Option<"@ + option_field_type(ref_name) + ">,\n"@
}

/// The fields of an options type.
pub struct OptionFields {
    /// The field declarations, in parameter order.
    pub text: Seq<char>,
    /// How many optional parameters there are.
    pub count: nat,
}

/// The fields for the optional parameters among the first `n` parameters
/// of an operation whose options type is named after `owner`; nothing
/// where one of them cannot be typed.
pub open spec fn option_fields(parameters: Seq<ParameterModel>, owner: Seq<char>, n: nat) -> Option<
    OptionFields,
>
    decreases n,
{
    if n == 0 || n > parameters.len() {
        Some(OptionFields { text: Seq::empty(), count: 0 })
    } else {
        match option_fields(parameters, owner, (n - 1) as nat) {
            None => None,
            Some(before) => {
                let parameter = parameters[n - 1];
                if parameter.required {
                    Some(before)
                } else {
                    let definitions = resolve(parameter.shape, combined(owner, parameter.name));
                    if definitions.len() == 0 {
                        None
                    } else {
                        Some(
                            OptionFields {
                                text: before.text + option_field_text(
                                    parameter,
                                    definitions.last().ref_name,
                                ),
                                count: before.count + 1,
                            },
                        )
                    }
                }
            },
        }
    }
}

/// The lifetime parameter of an options type that borrows.
pub open spec fn lifetime_text(borrows: bool) -> Seq<char> {
    if borrows {
        "<'a>"@
    } else {
        ""@
    }
}

/// The options type of the operation called `name`: present where the
/// operation has an optional parameter and all of them can be typed.
pub open spec fn aggregate(parameters: Seq<ParameterModel>, name: Seq<char>) -> Option<
    TypeDefinitionView,
> {
    let owner = converted(name, Case::Pascal);
    match option_fields(parameters, owner, parameters.len()) {
        None => None,
        Some(fields) => if fields.count == 0 {
            None
        } else {
            Some(
                TypeDefinitionView {
                    name: owner,
                    ref_name: owner,
                    definition: Some(
                        "pub struct "@ + owner + "Parameter"@ + lifetime_text(
                            needs_references(parameters, parameters.len()),
                        ) + " {\n"@ + fields.text + "}\n"@,
                    ),
                },
            )
        },
    }
}

/// The options types of the read routes of the first `n` paths, each named
/// after the operation identifier of its route.
pub open spec fn collected_aggregates(paths: Seq<PathModel>, n: nat) -> Seq<TypeDefinitionView>
    decreases n,
{
    if n == 0 || n > paths.len() {
        Seq::empty()
    } else {
        let before = collected_aggregates(paths, (n - 1) as nat);
        match paths[n - 1].get {
            None => before,
            Some(route) => match aggregate(route.parameters, route.operation_id) {
                None => before,
                Some(definition) => before.push(definition),
            },
        }
    }
}

/// Once an optional parameter cannot be typed, no longer prefix has fields.
pub proof fn lemma_untyped_option_persists(
    parameters: Seq<ParameterModel>,
    owner: Seq<char>,
    i: nat,
    n: nat,
)
    requires
        i <= n <= parameters.len(),
        option_fields(parameters, owner, i) is None,
    ensures
        option_fields(parameters, owner, n) is None,
    decreases n,
{
    if i < n {
        lemma_untyped_option_persists(parameters, owner, i, (n - 1) as nat);
    }
}

/// Whether one of the optional parameters is text.
pub fn any_optional_text(parameters: &Vec<PathRouteParameter>) -> (r: bool)
    ensures
        r == needs_references(views(parameters@), parameters@.len()),
{
    let mut found = false;
    let mut i: usize = 0;
    while i < parameters.len()
        invariant
            i <= parameters.len(),
            found == needs_references(views(parameters@), i as nat),
        decreases parameters.len() - i,
    {
        let parameter = &parameters[i];
        proof {
            assert(views(parameters@)[i as int] == parameter@);
        }
        if !parameter.required {
            let definitions = TypeDefinition::from_type_schema(&parameter.schema, String::new());
            proof {
                assert(views(definitions@).len() == definitions@.len());
                if definitions@.len() > 0 {
                    assert(views(definitions@).last() == definitions@.last()@);
                }
            }
            if definitions.len() > 0 && same_text(
                definitions[definitions.len() - 1].name.as_str(),
                "String",
            ) {
                found = true;
            }
        }
        i += 1;
    }
    found
}

/// Writes the declaration of the field for one optional parameter whose
/// type is borrowed as `ref_name`.
fn option_field(parameter: &PathRouteParameter, ref_name: &str) -> (result: String)
    ensures
        result@ == option_field_text(parameter@, ref_name@),
{
    let mut result = String::new();
    match &parameter.description {
        Some(description) => {
            result.append("    /// ");
            result.append(description.as_str());
            result.append("\n");
            proof {
                assert(result@ =~= description_text(parameter@.description));
            }
        },
        None => {},
    }
    result.append("    #[serde(default)]\n");
    result.append("    pub ");
    let identifier = field_name(parameter.name.as_str());
    result.append(identifier.as_str());
    result.append(": Option<");
    match strip_prefix(ref_name, '&') {
        Some(rest) => {
            let mut shared = "std::borrow::Cow<'a, ".to_owned();
            shared.append(rest.as_str());
            shared.append(">");
            result.append(shared.as_str());
        },
        None => {
            result.append(ref_name);
        },
    }
    result.append(">,\n");
    result
}

/// Builds the options type of the operation `get`, called `name`.
///
/// There is none where the operation has no optional parameter, and none
/// where one of its optional parameters cannot be typed.
pub fn collect_parameter_types_in_path_route(get: &PathRoute, name: String) -> (result: Option<
    TypeDefinition,
>)
    ensures
        match result {
            Some(definition) => aggregate(get@.parameters, name@) == Some(definition@),
            None => aggregate(get@.parameters, name@) is None,
        },
{
    let owner = to_case(name.as_str(), Case::Pascal);
    let borrows = any_optional_text(&get.parameters);
    let mut fields = String::new();
    let mut has_fields = false;
    let mut i: usize = 0;
    let ghost models = get@.parameters;
    proof {
        assert(models.len() == get.parameters@.len());
    }
    while i < get.parameters.len()
        invariant
            i <= get.parameters.len(),
            models == views(get.parameters@),
            models == get@.parameters,
            models.len() == get.parameters@.len(),
            owner@ == converted(name@, Case::Pascal),
            option_fields(models, owner@, i as nat) matches Some(so_far) && so_far.text == fields@
                && (so_far.count > 0) == has_fields,
        decreases get.parameters.len() - i,
    {
        let parameter = &get.parameters[i];
        proof {
            assert(models[i as int] == parameter@);
        }
        if !parameter.required {
            let definitions = TypeDefinition::from_type_schema(
                &parameter.schema,
                combine(owner.as_str(), parameter.name.as_str()),
            );
            proof {
                assert(views(definitions@).len() == definitions@.len());
            }
            if definitions.len() == 0 {
                proof {
                    assert(views(definitions@).len() == 0);
                    assert(option_fields(models, owner@, (i + 1) as nat) is None);
                    lemma_untyped_option_persists(
                        models,
                        owner@,
                        (i + 1) as nat,
                        get.parameters@.len(),
                    );
                }
                return None;
            }
            proof {
                assert(views(definitions@).last() == definitions@.last()@);
            }
            let line = option_field(
                parameter,
                definitions[definitions.len() - 1].ref_name.as_str(),
            );
            fields.append(line.as_str());
            has_fields = true;
        }
        i += 1;
    }
    if !has_fields {
        return None;
    }
    let mut definition = "pub struct ".to_owned();
    definition.append(owner.as_str());
    definition.append("Parameter");
    let lifetime = if borrows {
        "<'a>"
    } else {
        ""
    };
    definition.append(lifetime);
    definition.append(" {\n");
    definition.append(fields.as_str());
    definition.append("}\n");
    Some(TypeDefinition { ref_name: owner.clone(), name: owner, definition: Some(definition) })
}

/// The options types of the read routes of `schema`, in the order of its
/// paths.
pub fn collect_parameter_types_for(schema: &Schema) -> (result: Vec<TypeDefinition>)
    ensures
        views(result@) == collected_aggregates(schema@.paths, schema@.paths.len()),
{
    let paths = &schema.paths.0;
    let mut result: Vec<TypeDefinition> = Vec::new();
    let mut i: usize = 0;
    proof {
        lemma_views_empty(result@);
    }
    while i < paths.len()
        invariant
            i <= paths.len(),
            schema@.paths == path_models(paths@),
            views(result@) == collected_aggregates(schema@.paths, i as nat),
        decreases paths.len() - i,
    {
        let entry = &paths[i];
        let ghost model = schema@.paths[i as int];
        match &entry.1.get {
            None => {
                proof {
                    assert(model.get is None);
                }
            },
            Some(get) => {
                proof {
                    assert(model.get == Some(get@));
                }
                match collect_parameter_types_in_path_route(get, get.operation_id.clone()) {
                    None => {},
                    Some(definition) => {
                        proof {
                            lemma_views_push(result@, definition);
                        }
                        result.push(definition);
                    },
                }
            },
        }
        i += 1;
    }
    result
}

} // verus!
