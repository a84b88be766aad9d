//! Operation compilation: from a route to the definition of the function
//! that calls it.

use vstd::prelude::*;
use vstd::string::*;

use crate::model::{lemma_views_empty, lemma_views_push, views};
use crate::casing::{converted, to_case, Case};
use crate::schema::{
    path_models, response_models, ParameterLocation, ParameterModel, PathModel, PathRoute,
    PathRouteParameter, PathRouteResponse, ResponseModel, RouteModel, Schema, TypeShape,
};
use crate::text::{occurs_at, same_text, starts_with, substitute, substituted};
use crate::types::{combine, combined, parameter_identifier, parameter_name, resolve, TypeDefinition};

verus! {

/// Why generation stops.
#[derive(Debug, Clone, Copy, PartialEq, Eq, Structural)]
pub enum GenerationError {
    /// A response does not have exactly one content entry.
    ContentEntries,
    /// The responses of a route are neither none, nor one, nor a success
    /// beside a client error.
    UnsupportedResponses,
}

/// One parameter of a generated function.
#[derive(Debug, Clone, PartialEq, Eq)]
pub struct FunctionParameter {
    pub name: String,
    pub type_: String,
    pub is_required: bool,
}

/// The mathematical content of a [`FunctionParameter`].
pub struct FunctionParameterView {
    pub name: Seq<char>,
    pub type_: Seq<char>,
    pub is_required: bool,
}

impl View for FunctionParameter {
    type V = FunctionParameterView;

    open spec fn view(&self) -> FunctionParameterView {
        FunctionParameterView {
            name: self.name@,
            type_: self.type_@,
            is_required: self.is_required,
        }
    }
}

/// A generated function: the direct call of one operation.
#[derive(Debug, Clone, PartialEq, Eq)]
pub struct FunctionDefinition {
    pub doc_comment: String,
    pub name: String,
    /// Every parameter of the operation, in the order of the route.
    pub parameters: Vec<FunctionParameter>,
    /// The type of a successful result.
    pub response: String,
    /// The statements of the call plan.
    pub body: String,
}

/// The mathematical content of a [`FunctionDefinition`].
pub struct FunctionDefinitionView {
    pub doc_comment: Seq<char>,
    pub name: Seq<char>,
    pub parameters: Seq<FunctionParameterView>,
    pub response: Seq<char>,
    pub body: Seq<char>,
}

impl View for FunctionDefinition {
    type V = FunctionDefinitionView;

    open spec fn view(&self) -> FunctionDefinitionView {
        FunctionDefinitionView {
            doc_comment: self.doc_comment@,
            name: self.name@,
            parameters: views(self.parameters@),
            response: self.response@,
            body: self.body@,
        }
    }
}

/// The calling convention functions are generated for.
#[derive(Debug, Clone, PartialEq, Eq)]
pub struct FunctionDefinitionArgs {
    /// Whether the calls suspend instead of blocking.
    pub is_async: bool,
    /// The declaration of the parameter that carries the HTTP client.
    pub client_parameter: String,
    /// The address that path templates are appended to.
    pub base_url: String,
}

/// The mathematical content of [`FunctionDefinitionArgs`].
pub struct Convention {
    pub is_async: bool,
    pub client_parameter: Seq<char>,
    pub base_url: Seq<char>,
}

impl View for FunctionDefinitionArgs {
    type V = Convention;

    open spec fn view(&self) -> Convention {
        Convention {
            is_async: self.is_async,
            client_parameter: self.client_parameter@,
            base_url: self.base_url@,
        }
    }
}

/// The placeholder of a parameter in a path template.
pub open spec fn placeholder(name: Seq<char>) -> Seq<char> {
    "{"@ + name + "}"@
}

/// The path template after the placeholders of the first `n` parameters
/// have been rewritten to their identifiers, one parameter after the other.
/// Only parameters located in the path take part.
pub open spec fn rewritten_path(path: Seq<char>, parameters: Seq<ParameterModel>, n: nat) -> Seq<
    char,
>
    decreases n,
{
    if n == 0 || n > parameters.len() {
        path
    } else {
        let before = rewritten_path(path, parameters, (n - 1) as nat);
        let parameter = parameters[n - 1];
        if parameter.location == ParameterLocation::Path {
            substituted(
                before,
                placeholder(parameter.name),
                placeholder(parameter_identifier(parameter.name)),
            )
        } else {
            before
        }
    }
}

/// The type under which `parameter` is passed, if its schema resolves: the
/// borrowed form of its type, made optional unless the parameter is required.
pub open spec fn parameter_type(parameter: ParameterModel, namespace: Seq<char>) -> Option<
    Seq<char>,
> {
    let definitions = resolve(
        parameter.shape,
        combined(namespace, parameter_identifier(parameter.name)),
    );
    if definitions.len() == 0 {
        None
    } else if parameter.required {
        Some(definitions.last().ref_name)
    } else {
        Some("Option<"@ + definitions.last().ref_name + ">"@)
    }
}

/// The function parameters for the first `n` parameters of a route, or
/// nothing where one of them cannot be typed.
pub open spec fn compiled_parameters(
    parameters: Seq<ParameterModel>,
    namespace: Seq<char>,
    n: nat,
) -> Option<Seq<FunctionParameterView>>
    decreases n,
{
    if n == 0 || n > parameters.len() {
        Some(Seq::empty())
    } else {
        match compiled_parameters(parameters, namespace, (n - 1) as nat) {
            None => None,
            Some(before) => match parameter_type(parameters[n - 1], namespace) {
                None => None,
                Some(type_) => Some(
                    before.push(
                        FunctionParameterView {
                            name: parameter_identifier(parameters[n - 1].name),
                            type_,
                            is_required: parameters[n - 1].required,
                        },
                    ),
                ),
            },
        }
    }
}

/// A status code with the name of the type its body decodes to.
pub struct TypedResponse {
    pub status: Seq<char>,
    pub name: Seq<char>,
}

/// A response whose schema has been resolved.
#[derive(Debug, Clone, PartialEq, Eq)]
pub struct ResponseType {
    pub status: String,
    /// The name of the type the body decodes to.
    pub name: String,
}

impl View for ResponseType {
    type V = TypedResponse;

    open spec fn view(&self) -> TypedResponse {
        TypedResponse { status: self.status@, name: self.name@ }
    }
}

/// The typed form of the first `n` responses of a route, taken in order:
/// an error where one has not exactly one content entry, nothing where the
/// schema of one does not resolve; whichever comes first decides.
pub open spec fn typed_responses(responses: Seq<ResponseModel>, namespace: Seq<char>, n: nat) -> Result<
    Option<Seq<TypedResponse>>,
    GenerationError,
>
    decreases n,
{
    if n == 0 || n > responses.len() {
        Ok(Some(Seq::empty()))
    } else {
        match typed_responses(responses, namespace, (n - 1) as nat) {
            Err(e) => Err(e),
            Ok(None) => Ok(None),
            Ok(Some(before)) => {
                let response = responses[n - 1];
                if response.content.len() != 1 {
                    Err(GenerationError::ContentEntries)
                } else {
                    let definitions = resolve(
                        response.content[0],
                        combined(namespace, "Response"@ + response.status),
                    );
                    if definitions.len() == 0 {
                        Ok(None)
                    } else {
                        Ok(
                            Some(
                                before.push(
                                    TypedResponse {
                                        status: response.status,
                                        name: definitions.last().name,
                                    },
                                ),
                            ),
                        )
                    }
                }
            },
        }
    }
}

/// Whether a status code is the one of success.
pub open spec fn is_success(status: Seq<char>) -> bool {
    status == "200"@
}

/// Whether a status code is one of the client errors `40x`.
pub open spec fn is_client_error(status: Seq<char>) -> bool {
    occurs_at(status, "40"@, 0)
}

/// The type of a result that is `success` on status 200 and `alternate` on
/// a client error.
pub open spec fn outcome_pair(success: Seq<char>, alternate: Seq<char>) -> Seq<char> {
    "Result<"@ + success + ", "@ + alternate + ">"@
}

/// The two responses of a supported pair, the success first, if `responses`
/// is such a pair.
pub open spec fn success_and_alternate(responses: Seq<TypedResponse>) -> Option<
    (TypedResponse, TypedResponse),
> {
    if responses.len() != 2 {
        None
    } else if is_success(responses[0].status) && is_client_error(responses[1].status) {
        Some((responses[0], responses[1]))
    } else if is_success(responses[1].status) && is_client_error(responses[0].status) {
        Some((responses[1], responses[0]))
    } else {
        None
    }
}

/// The response type of a function with the given typed responses.
pub open spec fn response_type(responses: Seq<TypedResponse>) -> Result<
    Seq<char>,
    GenerationError,
> {
    if responses.len() == 0 {
        Ok("()"@)
    } else if responses.len() == 1 {
        Ok(responses[0].name)
    } else {
        match success_and_alternate(responses) {
            Some(pair) => Ok(outcome_pair(pair.0.name, pair.1.name)),
            None => Err(GenerationError::UnsupportedResponses),
        }
    }
}

/// Whether a value of this shape has to be turned into text before it is
/// attached to the query string: every typed value but text itself.
pub open spec fn needs_to_string(shape: TypeShape) -> bool {
    let definitions = resolve(shape, Seq::empty());
    definitions.len() > 0 && definitions.last().name != "String"@
}

/// The statement that attaches one query parameter to the request.
pub open spec fn query_statement(parameter: ParameterModel) -> Seq<char> {
    "        r = r.query(&[(\""@ + parameter.name + "\", "@ + parameter_identifier(parameter.name)
        + (if needs_to_string(parameter.shape) {
        ".to_string()"@
    } else {
        ""@
    }) + ")]);\n"@
}

/// The statements for one parameter of the query string. An optional
/// parameter is attached only where a value is present.
pub open spec fn query_text(parameter: ParameterModel) -> Seq<char> {
    if parameter.required {
        query_statement(parameter)
    } else {
        "    if let Some("@ + parameter_identifier(parameter.name) + ") = "@ + parameter_identifier(
            parameter.name,
        ) + " {\n"@ + query_statement(parameter) + "    }\n"@
    }
}

/// The statements that attach the query parameters among the first `n`
/// parameters of a route.
pub open spec fn queries_text(parameters: Seq<ParameterModel>, n: nat) -> Seq<char>
    decreases n,
{
    if n == 0 || n > parameters.len() {
        Seq::empty()
    } else {
        let before = queries_text(parameters, (n - 1) as nat);
        if parameters[n - 1].location == ParameterLocation::Query {
            before + query_text(parameters[n - 1])
        } else {
            before
        }
    }
}

/// The suffix of a call that suspends.
pub open spec fn await_suffix(is_async: bool) -> Seq<char> {
    if is_async {
        ".await"@
    } else {
        ""@
    }
}

/// The statements that open a request for `verb` on `url` and attach the
/// credential.
pub open spec fn request_text(verb: Seq<char>, url: Seq<char>) -> Seq<char> {
    "    let mut r = client."@ + verb + "(format!(\""@ + url + "\"));\n"@
        + "    r = r.query(&[(\"api_key\", api_key)]);\n"@
}

/// The statements that finish the request, send it and read the body, each
/// failure with the context known at its stage.
pub open spec fn transport_text(is_async: bool) -> Seq<char> {
    "    let r = r.build().map_err(|e| crate::Error::without_context(e))?;\n"@
        + "    let url = r.url().clone();\n"@ + "    let r = client.execute(r)"@ + await_suffix(
        is_async,
    ) + ".map_err(|e| crate::Error::new_with_url(&url, e))?;\n"@
        + "    let status = r.status();\n"@ + "    let text = r.text()"@ + await_suffix(is_async)
        + ".map_err(|e| crate::Error::new(&url, status, e))?;\n"@
}

/// The statements that decode the body. Where the response is a pair, the
/// status decides which of the two types the body is decoded to.
pub open spec fn decode_text(paired: bool) -> Seq<char> {
    if paired {
        "    let result = if status.as_u16() == 200 {\n"@
            + "        Ok(serde_json::from_str(&text).map_err(|e| crate::Error::new_with_text(&url, status, &text, e))?)\n"@
            + "    } else {\n"@
            + "        Err(serde_json::from_str(&text).map_err(|e| crate::Error::new_with_text(&url, status, &text, e))?)\n"@
            + "    };\n"@ + "    Ok(result)\n"@
    } else {
        "    let result = serde_json::from_str(&text).map_err(|e| crate::Error::new_with_text(&url, status, &text, e))?;\n"@
            + "    Ok(result)\n"@
    }
}

/// The whole call plan of a function.
pub open spec fn body_text(
    verb: Seq<char>,
    url: Seq<char>,
    parameters: Seq<ParameterModel>,
    is_async: bool,
    paired: bool,
) -> Seq<char> {
    request_text(verb, url) + queries_text(parameters, parameters.len()) + transport_text(is_async)
        + decode_text(paired)
}

/// The documentation of a function: summary, an empty line, description.
pub open spec fn doc_text(summary: Seq<char>, description: Seq<char>) -> Seq<char> {
    "/// "@ + summary + "\n///\n/// "@ + description
}

/// What compiling a route gives: the function, nothing where a parameter or
/// a response cannot be typed, or the error that stops generation.
/// Parameters are looked at before responses.
pub open spec fn compiled(
    path: Seq<char>,
    route: RouteModel,
    namespace: Seq<char>,
    convention: Convention,
    verb: Seq<char>,
) -> Result<Option<FunctionDefinitionView>, GenerationError> {
    match compiled_parameters(route.parameters, namespace, route.parameters.len()) {
        None => Ok(None),
        Some(parameters) => match typed_responses(
            route.responses,
            namespace,
            route.responses.len(),
        ) {
            Err(e) => Err(e),
            Ok(None) => Ok(None),
            Ok(Some(typed)) => match response_type(typed) {
                Err(e) => Err(e),
                Ok(response) => Ok(
                    Some(
                        FunctionDefinitionView {
                            doc_comment: doc_text(route.summary, route.description),
                            name: converted(route.operation_id, Case::Snake),
                            parameters,
                            response,
                            body: body_text(
                                verb,
                                convention.base_url + rewritten_path(
                                    path,
                                    route.parameters,
                                    route.parameters.len(),
                                ),
                                route.parameters,
                                convention.is_async,
                                typed.len() == 2,
                            ),
                        },
                    ),
                ),
            },
        },
    }
}

/// Once a parameter cannot be typed, no longer prefix can be compiled.
pub proof fn lemma_untyped_parameter_persists(
    parameters: Seq<ParameterModel>,
    namespace: Seq<char>,
    i: nat,
    n: nat,
)
    requires
        i <= n <= parameters.len(),
        compiled_parameters(parameters, namespace, i) is None,
    ensures
        compiled_parameters(parameters, namespace, n) is None,
    decreases n,
{
    if i < n {
        lemma_untyped_parameter_persists(parameters, namespace, i, (n - 1) as nat);
    }
}

/// Once a response stops or skips the compilation, every longer prefix
/// ends in the same way.
pub proof fn lemma_failed_response_persists(
    responses: Seq<ResponseModel>,
    namespace: Seq<char>,
    i: nat,
    n: nat,
)
    requires
        i <= n <= responses.len(),
        !(typed_responses(responses, namespace, i) matches Ok(Some(_))),
    ensures
        typed_responses(responses, namespace, n) == typed_responses(responses, namespace, i),
    decreases n,
{
    if i < n {
        lemma_failed_response_persists(responses, namespace, i, (n - 1) as nat);
    }
}

/// Rewrites the placeholders of the path parameters in `path`.
pub fn rewrite_path(path: &str, parameters: &Vec<PathRouteParameter>) -> (result: String)
    ensures
        result@ == rewritten_path(path@, views(parameters@), parameters@.len()),
{
    let mut result = path.to_owned();
    let mut i: usize = 0;
    while i < parameters.len()
        invariant
            i <= parameters.len(),
            result@ == rewritten_path(path@, views(parameters@), i as nat),
        decreases parameters.len() - i,
    {
        let parameter = &parameters[i];
        proof {
            assert(views(parameters@)[i as int] == parameter@);
        }
        if parameter.location.path() {
            let mut from = "{".to_owned();
            from.append(parameter.name.as_str());
            from.append("}");
            let identifier = parameter_name(parameter.name.as_str());
            let mut to = "{".to_owned();
            to.append(identifier.as_str());
            to.append("}");
            result = substitute(result.as_str(), from.as_str(), to.as_str());
        }
        i += 1;
    }
    result
}

/// Types the parameters of a route under `namespace`; nothing where one of
/// them cannot be typed.
pub fn compile_parameters(parameters: &Vec<PathRouteParameter>, namespace: &str) -> (result: Option<
    Vec<FunctionParameter>,
>)
    ensures
        match result {
            Some(compiled) => compiled_parameters(
                views(parameters@),
                namespace@,
                parameters@.len(),
            ) == Some(views(compiled@)),
            None => compiled_parameters(views(parameters@), namespace@, parameters@.len())
                is None,
        },
{
    let mut compiled: Vec<FunctionParameter> = Vec::new();
    let mut i: usize = 0;
    proof {
        lemma_views_empty(compiled@);
    }
    while i < parameters.len()
        invariant
            i <= parameters.len(),
            compiled_parameters(views(parameters@), namespace@, i as nat) == Some(
                views(compiled@),
            ),
        decreases parameters.len() - i,
    {
        let parameter = &parameters[i];
        proof {
            assert(views(parameters@)[i as int] == parameter@);
        }
        let name = parameter_name(parameter.name.as_str());
        let mut definitions = TypeDefinition::from_type_schema(
            &parameter.schema,
            combine(namespace, name.as_str()),
        );
        let ghost resolved = definitions@;
        proof {
            assert(views(resolved).len() == resolved.len());
        }
        match definitions.pop() {
            None => {
                proof {
                    lemma_untyped_parameter_persists(
                        views(parameters@),
                        namespace@,
                        (i + 1) as nat,
                        parameters@.len(),
                    );
                }
                return None;
            },
            Some(definition) => {
                proof {
                    assert(views(resolved).last() == definition@) by {
                        assert(resolved.last() == definition);
                    }
                }
                let type_ = if parameter.required {
                    definition.ref_name
                } else {
                    let mut optional = "Option<".to_owned();
                    optional.append(definition.ref_name.as_str());
                    optional.append(">");
                    optional
                };
                let own = FunctionParameter { name, type_, is_required: parameter.required };
                proof {
                    lemma_views_push(compiled@, own);
                }
                compiled.push(own);
            },
        }
        i += 1;
    }
    Some(compiled)
}

/// Types the responses of a route under `namespace`, in order.
pub fn type_responses(responses: &Vec<(String, PathRouteResponse)>, namespace: &str) -> (result:
    Result<Option<Vec<ResponseType>>, GenerationError>)
    ensures
        match result {
            Ok(Some(typed)) => typed_responses(
                response_models(responses@),
                namespace@,
                responses@.len(),
            ) == Ok::<_, GenerationError>(Some(views(typed@))),
            Ok(None) => typed_responses(response_models(responses@), namespace@, responses@.len())
                == Ok::<Option<Seq<TypedResponse>>, GenerationError>(None),
            Err(e) => typed_responses(response_models(responses@), namespace@, responses@.len())
                == Err::<Option<Seq<TypedResponse>>, _>(e),
        },
{
    let mut typed: Vec<ResponseType> = Vec::new();
    let mut i: usize = 0;
    proof {
        lemma_views_empty(typed@);
    }
    while i < responses.len()
        invariant
            i <= responses.len(),
            typed_responses(response_models(responses@), namespace@, i as nat) == Ok::<
                _,
                GenerationError,
            >(Some(views(typed@))),
        decreases responses.len() - i,
    {
        let entry = &responses[i];
        let ghost model = response_models(responses@)[i as int];
        proof {
            assert(model.status == entry.0@);
            assert(model.content.len() == entry.1.content@.len());
        }
        if entry.1.content.len() != 1 {
            proof {
                lemma_failed_response_persists(
                    response_models(responses@),
                    namespace@,
                    (i + 1) as nat,
                    responses@.len(),
                );
            }
            return Err(GenerationError::ContentEntries);
        }
        proof {
            assert(model.content[0] == entry.1.content@[0].1.schema@);
        }
        let mut label = "Response".to_owned();
        label.append(entry.0.as_str());
        let mut definitions = TypeDefinition::from_type_schema(
            &entry.1.content[0].1.schema,
            combine(namespace, label.as_str()),
        );
        let ghost resolved = definitions@;
        proof {
            assert(views(resolved).len() == resolved.len());
        }
        match definitions.pop() {
            None => {
                proof {
                    lemma_failed_response_persists(
                        response_models(responses@),
                        namespace@,
                        (i + 1) as nat,
                        responses@.len(),
                    );
                }
                return Ok(None);
            },
            Some(definition) => {
                proof {
                    assert(views(resolved).last() == definition@) by {
                        assert(resolved.last() == definition);
                    }
                }
                let own = ResponseType { status: entry.0.clone(), name: definition.name };
                proof {
                    lemma_views_push(typed@, own);
                }
                typed.push(own);
            },
        }
        i += 1;
    }
    Ok(Some(typed))
}

/// Whether `status` is the status code of success.
pub fn status_is_success(status: &str) -> (r: bool)
    ensures
        r == is_success(status@),
{
    same_text(status, "200")
}

/// Whether `status` is one of the client errors `40x`.
pub fn status_is_client_error(status: &str) -> (r: bool)
    ensures
        r == is_client_error(status@),
{
    starts_with(status, "40")
}

/// Writes the type of a result that is `success` or `alternate`.
fn pair_of(success: &str, alternate: &str) -> (result: String)
    ensures
        result@ == outcome_pair(success@, alternate@),
{
    let mut result = "Result<".to_owned();
    result.append(success);
    result.append(", ");
    result.append(alternate);
    result.append(">");
    result
}

/// The response type of a function with the given typed responses: the unit
/// type for none, the type of a single one, and for a success beside a
/// client error the pair of both. Any other set of responses is refused.
pub fn response_type_of(typed: &Vec<ResponseType>) -> (result: Result<String, GenerationError>)
    ensures
        match result {
            Ok(response) => response_type(views(typed@)) == Ok::<_, GenerationError>(response@),
            Err(e) => response_type(views(typed@)) == Err::<Seq<char>, _>(e),
        },
{
    proof {
        assert(views(typed@).len() == typed@.len());
    }
    if typed.len() == 0 {
        Ok("()".to_owned())
    } else if typed.len() == 1 {
        proof {
            assert(views(typed@)[0] == typed@[0]@);
        }
        Ok(typed[0].name.clone())
    } else if typed.len() == 2 {
        proof {
            assert(views(typed@)[0] == typed@[0]@);
            assert(views(typed@)[1] == typed@[1]@);
        }
        let first = &typed[0];
        let second = &typed[1];
        if status_is_success(first.status.as_str()) && status_is_client_error(
            second.status.as_str(),
        ) {
            Ok(pair_of(first.name.as_str(), second.name.as_str()))
        } else if status_is_success(second.status.as_str()) && status_is_client_error(
            first.status.as_str(),
        ) {
            Ok(pair_of(second.name.as_str(), first.name.as_str()))
        } else {
            Err(GenerationError::UnsupportedResponses)
        }
    } else {
        Err(GenerationError::UnsupportedResponses)
    }
}

/// Writes the statement that attaches one query parameter.
fn query_statement_of(parameter: &PathRouteParameter, identifier: &str) -> (result: String)
    requires
        identifier@ == parameter_identifier(parameter@.name),
    ensures
        result@ == query_statement(parameter@),
{
    let definitions = TypeDefinition::from_type_schema(&parameter.schema, String::new());
    proof {
        assert(views(definitions@).len() == definitions@.len());
        if definitions@.len() > 0 {
            assert(views(definitions@).last() == definitions@.last()@);
        }
    }
    let to_string_necessary = definitions.len() > 0 && !same_text(
        definitions[definitions.len() - 1].name.as_str(),
        "String",
    );
    let mut result = "        r = r.query(&[(\"".to_owned();
    result.append(parameter.name.as_str());
    result.append("\", ");
    result.append(identifier);
    let conversion = if to_string_necessary {
        ".to_string()"
    } else {
        ""
    };
    result.append(conversion);
    result.append(")]);\n");
    result
}

/// Writes the statements that attach the query parameters of a route, in
/// the order of the route.
pub fn query_statements(parameters: &Vec<PathRouteParameter>) -> (result: String)
    ensures
        result@ == queries_text(views(parameters@), parameters@.len()),
{
    let mut result = String::new();
    let mut i: usize = 0;
    while i < parameters.len()
        invariant
            i <= parameters.len(),
            result@ == queries_text(views(parameters@), i as nat),
        decreases parameters.len() - i,
    {
        let parameter = &parameters[i];
        proof {
            assert(views(parameters@)[i as int] == parameter@);
        }
        if parameter.location.query() {
            let identifier = parameter_name(parameter.name.as_str());
            let statement = query_statement_of(parameter, identifier.as_str());
            if parameter.required {
                result.append(statement.as_str());
            } else {
                let mut guarded = "    if let Some(".to_owned();
                guarded.append(identifier.as_str());
                guarded.append(") = ");
                guarded.append(identifier.as_str());
                guarded.append(" {\n");
                guarded.append(statement.as_str());
                guarded.append("    }\n");
                result.append(guarded.as_str());
            }
        }
        i += 1;
    }
    result
}

/// Writes the call plan of a function: open the request, attach the
/// credential and the query parameters, finish, send, read and decode.
pub fn call_plan(
    verb: &str,
    url: &str,
    parameters: &Vec<PathRouteParameter>,
    is_async: bool,
    paired: bool,
) -> (result: String)
    ensures
        result@ == body_text(verb@, url@, views(parameters@), is_async, paired),
{
    let suffix = if is_async {
        ".await"
    } else {
        ""
    };
    let mut request = "    let mut r = client.".to_owned();
    request.append(verb);
    request.append("(format!(\"");
    request.append(url);
    request.append("\"));\n");
    request.append("    r = r.query(&[(\"api_key\", api_key)]);\n");
    let queries = query_statements(parameters);
    let mut transport =
        "    let r = r.build().map_err(|e| crate::Error::without_context(e))?;\n".to_owned();
    transport.append("    let url = r.url().clone();\n");
    transport.append("    let r = client.execute(r)");
    transport.append(suffix);
    transport.append(".map_err(|e| crate::Error::new_with_url(&url, e))?;\n");
    transport.append("    let status = r.status();\n");
    transport.append("    let text = r.text()");
    transport.append(suffix);
    transport.append(".map_err(|e| crate::Error::new(&url, status, e))?;\n");
    let decode = if paired {
        let mut decode = "    let result = if status.as_u16() == 200 {\n".to_owned();
        decode.append(
            "        Ok(serde_json::from_str(&text).map_err(|e| crate::Error::new_with_text(&url, status, &text, e))?)\n",
        );
        decode.append("    } else {\n");
        decode.append(
            "        Err(serde_json::from_str(&text).map_err(|e| crate::Error::new_with_text(&url, status, &text, e))?)\n",
        );
        decode.append("    };\n");
        decode.append("    Ok(result)\n");
        decode
    } else {
        let mut decode =
            "    let result = serde_json::from_str(&text).map_err(|e| crate::Error::new_with_text(&url, status, &text, e))?;\n".to_owned();
        decode.append("    Ok(result)\n");
        decode
    };
    let mut result = request;
    result.append(queries.as_str());
    result.append(transport.as_str());
    result.append(decode.as_str());
    result
}

/// Compiles the route found under `path` into the function that calls it.
///
/// Gives nothing where a parameter or a response cannot be typed: the
/// operation is then left out. Fails where a response has not exactly one
/// content entry, and where the responses are of an unsupported kind.
pub fn collect_functions_in_path_route(
    path: &str,
    get: &PathRoute,
    namespace: &str,
    fun: &FunctionDefinitionArgs,
    request_function_name: &str,
) -> (result: Result<Option<FunctionDefinition>, GenerationError>)
    ensures
        match result {
            Ok(Some(function)) => compiled(
                path@,
                get@,
                namespace@,
                fun@,
                request_function_name@,
            ) == Ok::<_, GenerationError>(Some(function@)),
            Ok(None) => compiled(path@, get@, namespace@, fun@, request_function_name@) == Ok::<
                Option<FunctionDefinitionView>,
                GenerationError,
            >(None),
            Err(e) => compiled(path@, get@, namespace@, fun@, request_function_name@) == Err::<
                Option<FunctionDefinitionView>,
                _,
            >(e),
        },
{
    let name = to_case(get.operation_id.as_str(), Case::Snake);
    let rewritten = rewrite_path(path, &get.parameters);
    let parameters = match compile_parameters(&get.parameters, namespace) {
        None => {
            return Ok(None);
        },
        Some(parameters) => parameters,
    };
    let typed = match type_responses(&get.responses, namespace) {
        Err(e) => {
            return Err(e);
        },
        Ok(None) => {
            return Ok(None);
        },
        Ok(Some(typed)) => typed,
    };
    let response = match response_type_of(&typed) {
        Err(e) => {
            return Err(e);
        },
        Ok(response) => response,
    };
    proof {
        assert(views(typed@).len() == typed@.len());
    }
    let mut url = fun.base_url.clone();
    url.append(rewritten.as_str());
    let body = call_plan(
        request_function_name,
        url.as_str(),
        &get.parameters,
        fun.is_async,
        typed.len() == 2,
    );
    let mut doc_comment = "/// ".to_owned();
    doc_comment.append(get.summary.as_str());
    doc_comment.append("\n///\n/// ");
    doc_comment.append(get.description.as_str());
    Ok(Some(FunctionDefinition { doc_comment, name, parameters, response, body }))
}

/// The functions of the first `n` paths of a document, in order, each
/// route compiled under its operation identifier; the first error stops it.
pub open spec fn collected_functions(paths: Seq<PathModel>, convention: Convention, n: nat) -> Result<
    Seq<FunctionDefinitionView>,
    GenerationError,
>
    decreases n,
{
    if n == 0 || n > paths.len() {
        Ok(Seq::empty())
    } else {
        match collected_functions(paths, convention, (n - 1) as nat) {
            Err(e) => Err(e),
            Ok(before) => match paths[n - 1].get {
                None => Ok(before),
                Some(route) => match compiled(
                    paths[n - 1].path,
                    route,
                    route.operation_id,
                    convention,
                    "get"@,
                ) {
                    Err(e) => Err(e),
                    Ok(None) => Ok(before),
                    Ok(Some(function)) => Ok(before.push(function)),
                },
            },
        }
    }
}

/// Once a route stops generation, every longer prefix stops with it.
pub proof fn lemma_failed_route_persists(
    paths: Seq<PathModel>,
    convention: Convention,
    i: nat,
    n: nat,
)
    requires
        i <= n <= paths.len(),
        collected_functions(paths, convention, i) is Err,
    ensures
        collected_functions(paths, convention, n) == collected_functions(paths, convention, i),
    decreases n,
{
    if i < n {
        lemma_failed_route_persists(paths, convention, i, (n - 1) as nat);
    }
}

/// Compiles every read route of `schema`, in the order of its paths.
pub fn collect_functions_for(schema: &Schema, fun: &FunctionDefinitionArgs) -> (result: Result<
    Vec<FunctionDefinition>,
    GenerationError,
>)
    ensures
        match result {
            Ok(functions) => collected_functions(schema@.paths, fun@, schema@.paths.len())
                == Ok::<_, GenerationError>(views(functions@)),
            Err(e) => collected_functions(schema@.paths, fun@, schema@.paths.len()) == Err::<
                Seq<FunctionDefinitionView>,
                _,
            >(e),
        },
{
    let paths = &schema.paths.0;
    let mut functions: Vec<FunctionDefinition> = Vec::new();
    let mut i: usize = 0;
    proof {
        lemma_views_empty(functions@);
    }
    while i < paths.len()
        invariant
            i <= paths.len(),
            schema@.paths == path_models(paths@),
            collected_functions(schema@.paths, fun@, i as nat) == Ok::<_, GenerationError>(
                views(functions@),
            ),
        decreases paths.len() - i,
    {
        let entry = &paths[i];
        let ghost model = schema@.paths[i as int];
        proof {
            assert(model.path == entry.0@);
        }
        match &entry.1.get {
            None => {},
            Some(get) => {
                proof {
                    assert(model.get == Some(get@));
                }
                match collect_functions_in_path_route(
                    entry.0.as_str(),
                    get,
                    get.operation_id.as_str(),
                    fun,
                    "get",
                ) {
                    Err(e) => {
                        proof {
                            lemma_failed_route_persists(
                                schema@.paths,
                                fun@,
                                (i + 1) as nat,
                                paths@.len(),
                            );
                        }
                        return Err(e);
                    },
                    Ok(None) => {},
                    Ok(Some(function)) => {
                        proof {
                            lemma_views_push(functions@, function);
                        }
                        functions.push(function);
                    },
                }
            },
        }
        i += 1;
    }
    Ok(functions)
}

} // verus!
