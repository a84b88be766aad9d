//! What holds of the generator for every schema, proved over the
//! definitions that its contracts are stated in.

use vstd::prelude::*;

use crate::casing::{converted, Case};
use crate::diagnostics::{counted, diagnosed, outcome_of, DiagnosticView};
use crate::emit::{convenience, has_optional, required_parameters};
use crate::parameters::{aggregate, option_fields};
use crate::functions::{
    body_text, collected_functions, compiled, compiled_parameters, decode_text, is_client_error,
    is_success, outcome_pair, queries_text, request_text, response_type, rewritten_path,
    transport_text, typed_responses, Convention, FunctionDefinitionView, FunctionParameterView,
    GenerationError, TypedResponse,
};
use crate::generate::{blocking_convention, generated, suspending_convention};
use crate::schema::{
    ParameterModel, PathModel, PropertyShape, ResponseModel, RouteModel, SchemaModel, TypeShape,
};
use crate::types::{
    combined, parameter_identifier, resolve, resolved_members, sequence_of, struct_definition,
};

verus! {

/// Whether one of the first `n` properties has a shape that can be typed.
pub open spec fn any_resolvable(properties: Seq<PropertyShape>, n: nat) -> bool
    decreases properties, n,
{
    if n == 0 || n > properties.len() {
        false
    } else {
        any_resolvable(properties, (n - 1) as nat) || resolvable(properties[n - 1].shape)
    }
}

/// Whether a value of this shape can be typed: a scalar, an array of items
/// that can be typed, or an object with a property that can be typed.
pub open spec fn resolvable(shape: TypeShape) -> bool
    decreases shape, 0nat,
{
    match shape {
        TypeShape::Unknown => false,
        TypeShape::Boolean => true,
        TypeShape::Text => true,
        TypeShape::Integer => true,
        TypeShape::Number => true,
        TypeShape::Array(items) => resolvable(*items),
        TypeShape::Object(properties) => any_resolvable(properties, properties.len()),
    }
}

/// The members of an object contribute a field exactly where one of them
/// can be typed.
pub proof fn lemma_members_resolve(properties: Seq<PropertyShape>, owner: Seq<char>, n: nat)
    ensures
        resolved_members(properties, owner, n).count > 0 <==> any_resolvable(properties, n),
    decreases properties, n,
{
    if n == 0 || n > properties.len() {
    } else {
        lemma_members_resolve(properties, owner, (n - 1) as nat);
        lemma_resolves(properties[n - 1].shape, combined(owner, properties[n - 1].name));
    }
}

/// Resolution gives definitions exactly for the shapes that can be typed,
/// whatever the namespace.
pub proof fn lemma_resolves(shape: TypeShape, name: Seq<char>)
    ensures
        resolve(shape, name).len() > 0 <==> resolvable(shape),
    decreases shape, 0nat,
{
    match shape {
        TypeShape::Array(items) => {
            lemma_resolves(*items, name);
        },
        TypeShape::Object(properties) => {
            lemma_members_resolve(
                properties,
                converted(name, Case::Pascal),
                properties.len(),
            );
        },
        _ => {},
    }
}

/// An array is typed exactly where its items are, and then as the sequence
/// of the type of its items, behind the definitions that the items need. An
/// array of items without recognised type is not typed.
pub proof fn lemma_array_resolution(items: TypeShape, name: Seq<char>)
    ensures
        resolve(TypeShape::Array(Box::new(items)), name).len() == 0 <==> resolve(items, name).len()
            == 0,
        resolve(items, name).len() > 0 ==> resolve(TypeShape::Array(Box::new(items)), name)
            == resolve(items, name).push(sequence_of(resolve(items, name).last().name)),
        resolve(TypeShape::Array(Box::new(TypeShape::Unknown)), name).len() == 0,
{
    assert(resolve(TypeShape::Unknown, name).len() == 0);
}

/// A property that cannot be typed leaves no trace in the struct of its
/// object: neither a field nor a definition.
pub proof fn lemma_unresolved_member_is_dropped(
    properties: Seq<PropertyShape>,
    owner: Seq<char>,
    n: nat,
)
    requires
        0 < n <= properties.len(),
        !resolvable(properties[n - 1].shape),
    ensures
        resolved_members(properties, owner, n) == resolved_members(
            properties,
            owner,
            (n - 1) as nat,
        ),
{
    lemma_resolves(properties[n - 1].shape, combined(owner, properties[n - 1].name));
}

/// An object none of whose properties can be typed is not typed itself.
pub proof fn lemma_empty_struct_is_omitted(properties: Seq<PropertyShape>, name: Seq<char>)
    requires
        forall|i: int| 0 <= i < properties.len() ==> !resolvable(#[trigger] properties[i].shape),
    ensures
        resolve(TypeShape::Object(properties), name).len() == 0,
{
    lemma_none_resolvable(properties, properties.len());
    lemma_resolves(TypeShape::Object(properties), name);
}

/// Where no property can be typed, no prefix of the properties has one
/// that can.
proof fn lemma_none_resolvable(properties: Seq<PropertyShape>, n: nat)
    requires
        n <= properties.len(),
        forall|i: int| 0 <= i < properties.len() ==> !resolvable(#[trigger] properties[i].shape),
    ensures
        !any_resolvable(properties, n),
    decreases n,
{
    if n > 0 {
        lemma_none_resolvable(properties, (n - 1) as nat);
    }
}

/// Whether the responses of a route are of a supported kind: none, one, or
/// a success beside a client error, each with a single content entry that
/// can be typed.
pub open spec fn supported_responses(responses: Seq<ResponseModel>) -> bool {
    &&& forall|j: int|
        0 <= j < responses.len() ==> (#[trigger] responses[j]).content.len() == 1 && resolvable(
            responses[j].content[0],
        )
    &&& (responses.len() <= 1 || (responses.len() == 2 && ((is_success(responses[0].status)
        && is_client_error(responses[1].status)) || (is_success(responses[1].status)
        && is_client_error(responses[0].status)))))
}

/// Whether a route keeps to the supported shapes and response kinds.
pub open spec fn supported_route(route: RouteModel) -> bool {
    &&& forall|i: int|
        0 <= i < route.parameters.len() ==> resolvable((#[trigger] route.parameters[i]).shape)
    &&& supported_responses(route.responses)
}

/// Whether every read route of a document keeps to the supported shapes
/// and response kinds.
pub open spec fn supported_paths(paths: Seq<PathModel>) -> bool {
    forall|k: int|
        0 <= k < paths.len() ==> ((#[trigger] paths[k]).get matches Some(route)
            ==> supported_route(route))
}

/// Parameters that can all be typed compile one by one, in order.
pub proof fn lemma_parameters_compile(
    parameters: Seq<ParameterModel>,
    namespace: Seq<char>,
    n: nat,
)
    requires
        n <= parameters.len(),
        forall|i: int| 0 <= i < parameters.len() ==> resolvable((#[trigger] parameters[i]).shape),
    ensures
        compiled_parameters(parameters, namespace, n) matches Some(compiled) && compiled.len() == n
            && forall|i: int|
            0 <= i < n ==> (#[trigger] compiled[i]).is_required == parameters[i].required
                && compiled[i].name == parameter_identifier(parameters[i].name),
    decreases n,
{
    if n > 0 {
        lemma_parameters_compile(parameters, namespace, (n - 1) as nat);
        let parameter = parameters[n - 1];
        assert(resolvable(parameter.shape));
        lemma_resolves(
            parameter.shape,
            combined(namespace, parameter_identifier(parameter.name)),
        );
    }
}

/// Responses with a single content entry that can be typed are typed one
/// by one, in order.
pub proof fn lemma_responses_are_typed(
    responses: Seq<ResponseModel>,
    namespace: Seq<char>,
    n: nat,
)
    requires
        n <= responses.len(),
        forall|j: int|
            0 <= j < responses.len() ==> (#[trigger] responses[j]).content.len() == 1
                && resolvable(responses[j].content[0]),
    ensures
        typed_responses(responses, namespace, n) matches Ok(Some(typed)) && typed.len() == n
            && forall|j: int| 0 <= j < n ==> (#[trigger] typed[j]).status == responses[j].status,
    decreases n,
{
    if n > 0 {
        lemma_responses_are_typed(responses, namespace, (n - 1) as nat);
        let response = responses[n - 1];
        assert(response.content.len() == 1 && resolvable(response.content[0]));
        lemma_resolves(response.content[0], combined(namespace, "Response"@ + response.status));
    }
}

/// A route that keeps to the supported shapes and response kinds compiles
/// to a direct call that takes every parameter of the route, required and
/// optional ones alike, in order.
pub proof fn lemma_supported_route_compiles(
    path: Seq<char>,
    route: RouteModel,
    namespace: Seq<char>,
    convention: Convention,
    verb: Seq<char>,
)
    requires
        supported_route(route),
    ensures
        compiled(path, route, namespace, convention, verb) matches Ok(Some(function))
            && function.parameters.len() == route.parameters.len() && forall|i: int|
            0 <= i < route.parameters.len() ==> (#[trigger] function.parameters[i]).is_required
                == route.parameters[i].required,
{
    lemma_parameters_compile(route.parameters, namespace, route.parameters.len());
    lemma_responses_are_typed(route.responses, namespace, route.responses.len());
}

/// How many of the first `n` paths have a read route.
pub open spec fn route_count(paths: Seq<PathModel>, n: nat) -> nat
    decreases n,
{
    if n == 0 || n > paths.len() {
        0
    } else {
        route_count(paths, (n - 1) as nat) + if paths[n - 1].get is Some {
            1nat
        } else {
            0nat
        }
    }
}

/// Over routes that keep to the supported shapes and response kinds,
/// collecting functions succeeds and yields one function for each route.
pub proof fn lemma_supported_paths_collect(paths: Seq<PathModel>, convention: Convention, n: nat)
    requires
        n <= paths.len(),
        supported_paths(paths),
    ensures
        collected_functions(paths, convention, n) matches Ok(functions) && functions.len()
            == route_count(paths, n),
    decreases n,
{
    if n > 0 {
        lemma_supported_paths_collect(paths, convention, (n - 1) as nat);
        match paths[n - 1].get {
            None => {},
            Some(route) => {
                assert(supported_route(route));
                lemma_supported_route_compiles(
                    paths[n - 1].path,
                    route,
                    route.operation_id,
                    convention,
                    "get"@,
                );
            },
        }
    }
}

/// Generation succeeds for every document whose read routes keep to the
/// supported shapes and response kinds.
pub proof fn lemma_supported_schema_generates(schema: SchemaModel)
    requires
        supported_paths(schema.paths),
    ensures
        generated(schema) is Ok,
{
    lemma_supported_paths_collect(
        schema.paths,
        blocking_convention(schema.servers[0]),
        schema.paths.len(),
    );
    lemma_supported_paths_collect(
        schema.paths,
        suspending_convention(schema.servers[0]),
        schema.paths.len(),
    );
}

/// A success beside a client error gives the pair of both types, the
/// success first, in whichever order the two responses stand.
pub proof fn lemma_success_beside_client_error(
    success: Seq<char>,
    status: Seq<char>,
    alternate: Seq<char>,
)
    requires
        is_client_error(status),
    ensures
        response_type(
            seq![
                TypedResponse { status: "200"@, name: success },
                TypedResponse { status, name: alternate },
            ],
        ) == Ok::<_, GenerationError>(outcome_pair(success, alternate)),
        response_type(
            seq![
                TypedResponse { status, name: alternate },
                TypedResponse { status: "200"@, name: success },
            ],
        ) == Ok::<_, GenerationError>(outcome_pair(success, alternate)),
{
    reveal_strlit("200");
    reveal_strlit("40");
    assert(!is_client_error("200"@)) by {
        if is_client_error("200"@) {
            assert("200"@.subrange(0, 2)[0] == "40"@[0]);
        }
    }
    assert(!is_success(status)) by {
        if is_success(status) {
            assert(status.subrange(0, 2)[0] == "40"@[0]);
        }
    }
}

/// The required parameters are the parameters for which `is_required`
/// holds, in their order.
pub proof fn lemma_required_parameters_filter(parameters: Seq<FunctionParameterView>, n: nat)
    requires
        n <= parameters.len(),
    ensures
        required_parameters(parameters, n) == parameters.take(n as int).filter(
            |p: FunctionParameterView| p.is_required,
        ),
    decreases n,
{
    reveal(Seq::filter);
    let pred = |p: FunctionParameterView| p.is_required;
    if n > 0 {
        lemma_required_parameters_filter(parameters, (n - 1) as nat);
        assert(parameters.take(n as int).drop_last() =~= parameters.take(n - 1));
        assert(parameters.take(n as int).last() == parameters[n - 1]);
    } else {
        assert(parameters.take(0).filter(pred) =~= Seq::empty());
    }
}

/// `has_optional` holds exactly where a parameter is optional.
pub proof fn lemma_has_optional(parameters: Seq<FunctionParameterView>, n: nat)
    requires
        n <= parameters.len(),
    ensures
        has_optional(parameters, n) <==> exists|i: int|
            0 <= i < n && !(#[trigger] parameters[i]).is_required,
    decreases n,
{
    if n > 0 {
        lemma_has_optional(parameters, (n - 1) as nat);
        if has_optional(parameters, (n - 1) as nat) {
            let i = choose|i: int| 0 <= i < n - 1 && !(#[trigger] parameters[i]).is_required;
            assert(0 <= i < n && !parameters[i].is_required);
        } else if !parameters[n - 1].is_required {
            assert(0 <= n - 1 < n && !parameters[n - 1].is_required);
        }
    }
}

/// A function without optional parameters has no convenience call. A
/// function with an optional parameter has one, and its parameters are the
/// required parameters of the direct call, in the same order.
pub proof fn lemma_convenience_call(function: FunctionDefinitionView, is_async: bool)
    ensures
        convenience(function, is_async) is Some <==> exists|i: int|
            0 <= i < function.parameters.len() && !(#[trigger] function.parameters[i]).is_required,
        convenience(function, is_async) matches Some(call) ==> call.parameters
            == function.parameters.filter(|p: FunctionParameterView| p.is_required),
{
    lemma_has_optional(function.parameters, function.parameters.len());
    lemma_required_parameters_filter(function.parameters, function.parameters.len());
    assert(function.parameters.take(function.parameters.len() as int) =~= function.parameters);
}

/// Among the definitions that the first `n` properties contribute, those
/// of the property `i` stand in one piece, behind those of the properties
/// before it.
pub proof fn lemma_member_position(
    properties: Seq<PropertyShape>,
    owner: Seq<char>,
    i: nat,
    n: nat,
)
    requires
        i < n <= properties.len(),
    ensures
        ({
            let own = resolve(properties[i as int].shape, combined(owner, properties[i as int].name));
            let start = resolved_members(properties, owner, i).definitions.len();
            let all = resolved_members(properties, owner, n).definitions;
            start + own.len() <= all.len() && all.subrange(start as int, (start + own.len()) as int) == own
        }),
    decreases n,
{
    let own = resolve(properties[i as int].shape, combined(owner, properties[i as int].name));
    let start = resolved_members(properties, owner, i).definitions.len();
    let all = resolved_members(properties, owner, n).definitions;
    if n == i + 1 {
        assert(all.subrange(start as int, (start + own.len()) as int) =~= own);
    } else {
        lemma_member_position(properties, owner, i, (n - 1) as nat);
        let before = resolved_members(properties, owner, (n - 1) as nat).definitions;
        assert(all.subrange(start as int, (start + own.len()) as int) =~= before.subrange(
            start as int,
            (start + own.len()) as int,
        ));
    }
}

/// Dependencies come first: the struct of an object is the last of its
/// definitions, and the definitions that a property needs stand in one
/// piece in front of it.
pub proof fn lemma_dependencies_first(properties: Seq<PropertyShape>, name: Seq<char>, i: nat)
    requires
        i < properties.len(),
        resolvable(properties[i as int].shape),
    ensures
        ({
            let owner = converted(name, Case::Pascal);
            let all = resolve(TypeShape::Object(properties), name);
            let members = resolved_members(properties, owner, properties.len());
            let own = resolve(properties[i as int].shape, combined(owner, properties[i as int].name));
            let start = resolved_members(properties, owner, i).definitions.len();
            &&& own.len() > 0
            &&& start + own.len() < all.len()
            &&& all.subrange(start as int, (start + own.len()) as int) == own
            &&& all.last() == struct_definition(owner, members.fields)
        }),
{
    let owner = converted(name, Case::Pascal);
    let all = resolve(TypeShape::Object(properties), name);
    let members = resolved_members(properties, owner, properties.len());
    let own = resolve(properties[i as int].shape, combined(owner, properties[i as int].name));
    let start = resolved_members(properties, owner, i).definitions.len();
    lemma_resolves(properties[i as int].shape, combined(owner, properties[i as int].name));
    lemma_member_position(properties, owner, i, properties.len());
    lemma_any_resolvable(properties, i, properties.len());
    lemma_members_resolve(properties, owner, properties.len());
    assert(all.subrange(start as int, (start + own.len()) as int) =~= members.definitions.subrange(
        start as int,
        (start + own.len()) as int,
    ));
}

/// A property that can be typed makes every prefix behind it hold one.
proof fn lemma_any_resolvable(properties: Seq<PropertyShape>, i: nat, n: nat)
    requires
        i < n <= properties.len(),
        resolvable(properties[i as int].shape),
    ensures
        any_resolvable(properties, n),
    decreases n,
{
    if n > i + 1 {
        lemma_any_resolvable(properties, i, (n - 1) as nat);
    }
}

/// Where every parameter among the first `n` can be typed, the fields of
/// the options type exist, one for each optional parameter.
pub proof fn lemma_option_fields(parameters: Seq<ParameterModel>, owner: Seq<char>, n: nat)
    requires
        n <= parameters.len(),
        forall|i: int| 0 <= i < parameters.len() ==> resolvable((#[trigger] parameters[i]).shape),
    ensures
        option_fields(parameters, owner, n) matches Some(fields) && (fields.count > 0
            <==> exists|i: int| 0 <= i < n && !(#[trigger] parameters[i]).required),
    decreases n,
{
    if n > 0 {
        lemma_option_fields(parameters, owner, (n - 1) as nat);
        let parameter = parameters[n - 1];
        assert(resolvable(parameter.shape));
        lemma_resolves(parameter.shape, combined(owner, parameter.name));
        let before = option_fields(parameters, owner, (n - 1) as nat)->0;
        if before.count > 0 {
            let i = choose|i: int| 0 <= i < n - 1 && !(#[trigger] parameters[i]).required;
            assert(0 <= i < n && !parameters[i].required);
        } else if !parameter.required {
            assert(0 <= n - 1 < n && !parameters[n - 1].required);
        }
    }
}

/// A parameter list compiles only where every parameter can be typed.
pub proof fn lemma_compiled_parameters_resolve(
    parameters: Seq<ParameterModel>,
    namespace: Seq<char>,
    n: nat,
)
    requires
        n <= parameters.len(),
        compiled_parameters(parameters, namespace, n) is Some,
    ensures
        forall|i: int| 0 <= i < n ==> resolvable((#[trigger] parameters[i]).shape),
        compiled_parameters(parameters, namespace, n)->0.len() == n,
        forall|i: int|
            0 <= i < n ==> (#[trigger] compiled_parameters(parameters, namespace, n)->0[i]).is_required
                == parameters[i].required,
    decreases n,
{
    if n > 0 {
        lemma_compiled_parameters_resolve(parameters, namespace, (n - 1) as nat);
        let parameter = parameters[n - 1];
        lemma_resolves(
            parameter.shape,
            combined(namespace, parameter_identifier(parameter.name)),
        );
    }
}

/// For an operation that compiles, the options type exists exactly where
/// the convenience call does: where the operation has an optional
/// parameter.
pub proof fn lemma_options_beside_convenience(
    path: Seq<char>,
    route: RouteModel,
    namespace: Seq<char>,
    convention: Convention,
    verb: Seq<char>,
    name: Seq<char>,
)
    requires
        compiled(path, route, namespace, convention, verb) matches Ok(Some(_)),
    ensures
        ({
            let function = compiled(path, route, namespace, convention, verb)->Ok_0->0;
            aggregate(route.parameters, name) is Some <==> convenience(
                function,
                convention.is_async,
            ) is Some
        }),
{
    let function = compiled(path, route, namespace, convention, verb)->Ok_0->0;
    let n = route.parameters.len();
    lemma_compiled_parameters_resolve(route.parameters, namespace, n);
    lemma_option_fields(route.parameters, converted(name, Case::Pascal), n);
    lemma_has_optional(function.parameters, n);
    if has_optional(function.parameters, n) {
        let i = choose|i: int| 0 <= i < n && !(#[trigger] function.parameters[i]).is_required;
        assert(!route.parameters[i].required);
    }
    if exists|i: int| 0 <= i < n && !(#[trigger] route.parameters[i]).required {
        let i = choose|i: int| 0 <= i < n && !(#[trigger] route.parameters[i]).required;
        assert(!function.parameters[i].is_required);
    }
}

/// The two calling conventions agree: under the same base address a route
/// compiles for both or for neither, to functions of the same name,
/// parameters and response, whose call plans build the same request and
/// decode alike, and differ only where a call suspends.
pub proof fn lemma_conventions_agree(
    path: Seq<char>,
    route: RouteModel,
    namespace: Seq<char>,
    verb: Seq<char>,
    blocking: Convention,
    suspending: Convention,
)
    requires
        blocking.base_url == suspending.base_url,
    ensures
        match (
            compiled(path, route, namespace, blocking, verb),
            compiled(path, route, namespace, suspending, verb),
        ) {
            (Ok(Some(plain)), Ok(Some(suspended))) => {
                let url = blocking.base_url + rewritten_path(
                    path,
                    route.parameters,
                    route.parameters.len(),
                );
                let request = request_text(verb, url) + queries_text(
                    route.parameters,
                    route.parameters.len(),
                );
                let paired = typed_responses(
                    route.responses,
                    namespace,
                    route.responses.len(),
                )->Ok_0->0.len() == 2;
                &&& plain.name == suspended.name
                &&& plain.doc_comment == suspended.doc_comment
                &&& plain.parameters == suspended.parameters
                &&& plain.response == suspended.response
                &&& plain.body == request + transport_text(blocking.is_async) + decode_text(paired)
                &&& suspended.body == request + transport_text(suspending.is_async)
                    + decode_text(paired)
            },
            (Ok(None), Ok(None)) => true,
            (Err(e), Err(f)) => e == f,
            _ => false,
        },
{
    match (
        compiled(path, route, namespace, blocking, verb),
        compiled(path, route, namespace, suspending, verb),
    ) {
        (Ok(Some(plain)), Ok(Some(suspended))) => {
            let typed = typed_responses(route.responses, namespace, route.responses.len())->Ok_0->0;
            let paired = typed.len() == 2;
            let url = blocking.base_url + rewritten_path(
                path,
                route.parameters,
                route.parameters.len(),
            );
            assert(plain.body == body_text(
                verb,
                url,
                route.parameters,
                blocking.is_async,
                paired,
            ));
            assert(suspended.body == body_text(
                verb,
                url,
                route.parameters,
                suspending.is_async,
                paired,
            ));
            assert(plain.body == request_text(verb, url) + queries_text(
                route.parameters,
                route.parameters.len(),
            ) + transport_text(blocking.is_async) + decode_text(paired));
        },
        _ => {},
    }
}

/// The counts over the first `n` diagnostics depend on these alone.
pub proof fn lemma_counted_prefix(a: Seq<DiagnosticView>, b: Seq<DiagnosticView>, n: nat)
    requires
        n <= a.len(),
        n <= b.len(),
        forall|i: int| 0 <= i < n ==> a[i] == b[i],
    ensures
        counted(a, n) == counted(b, n),
    decreases n,
{
    if n > 0 {
        lemma_counted_prefix(a, b, (n - 1) as nat);
    }
}

/// The diagnostics explain the collection of functions: it succeeds where
/// no route stops generation, and then yields one function for each route
/// that compiles.
pub proof fn lemma_diagnostics_explain_collection(
    paths: Seq<PathModel>,
    convention: Convention,
    n: nat,
)
    requires
        n <= paths.len(),
    ensures
        ({
            let diagnostics = diagnosed(paths, convention, n);
            let counts = counted(diagnostics, diagnostics.len());
            &&& collected_functions(paths, convention, n) is Ok <==> counts.aborted == 0
            &&& collected_functions(paths, convention, n) matches Ok(functions) ==> functions.len()
                == counts.compiled
        }),
    decreases n,
{
    if n > 0 {
        lemma_diagnostics_explain_collection(paths, convention, (n - 1) as nat);
        let before = diagnosed(paths, convention, (n - 1) as nat);
        match outcome_of(paths[n - 1], convention) {
            None => {},
            Some(diagnostic) => {
                lemma_counted_prefix(before.push(diagnostic), before, before.len());
            },
        }
    }
}

} // verus!
