//! Rendering: the text of the generated modules, for the blocking and for
//! the suspending calling convention.

use vstd::prelude::*;
use vstd::string::*;

use crate::casing::{converted, to_case, Case};
use crate::functions::{
    Convention, FunctionDefinition, FunctionDefinitionArgs, FunctionDefinitionView,
    FunctionParameter, FunctionParameterView,
};
use crate::model::{lemma_views_empty, lemma_views_push, views};
use crate::text::{contains, occurs};
use crate::types::{TypeDefinition, TypeDefinitionView};

verus! {

/// The head of the types module: the rule that decodes an absent or null
/// value as the default of its type.
pub open spec fn types_prelude() -> Seq<char> {
    "\nuse serde::Deserialize;\n\nfn null_to_default<'de, D, T>(deserializer: D) -> Result<T, D::Error>\nwhere\n    D: serde::Deserializer<'de>,\n    T: serde::Deserialize<'de> + Default,\n{\n    Option::<T>::deserialize(deserializer)\n        .map(|opt| opt.unwrap_or_default())\n    }\n"@
}

/// The head of a module that uses the generated types.
pub open spec fn types_import() -> Seq<char> {
    "use crate::types::*;\n"@
}

/// One declaration with the traits every generated type derives.
pub open spec fn declaration_text(declaration: Seq<char>) -> Seq<char> {
    "#[derive(Debug, Default, Clone, PartialEq, serde::Serialize, serde::Deserialize)]\n"@
        + declaration + "\n"@
}

/// The declarations of the first `n` definitions; a definition without
/// declaration contributes nothing.
pub open spec fn declarations_text(definitions: Seq<TypeDefinitionView>, n: nat) -> Seq<char>
    decreases n,
{
    if n == 0 || n > definitions.len() {
        Seq::empty()
    } else {
        let before = declarations_text(definitions, (n - 1) as nat);
        match definitions[n - 1].definition {
            Some(declaration) => before + declaration_text(declaration),
            None => before,
        }
    }
}

/// The types module.
pub open spec fn types_text(definitions: Seq<TypeDefinitionView>) -> Seq<char> {
    types_prelude() + declarations_text(definitions, definitions.len())
}

/// The module of the options types.
pub open spec fn parameter_types_text(definitions: Seq<TypeDefinitionView>) -> Seq<char> {
    types_import() + declarations_text(definitions, definitions.len())
}

/// The words that open a function of the given convention.
pub open spec fn function_keyword(is_async: bool) -> Seq<char> {
    if is_async {
        "pub async fn "@
    } else {
        "pub fn "@
    }
}

/// The module that holds the direct calls of the given convention.
pub open spec fn functions_module(is_async: bool) -> Seq<char> {
    if is_async {
        "async_functions"@
    } else {
        "functions"@
    }
}

/// The declarations of the first `n` parameters in a signature; with
/// `required_only`, optional parameters are left out.
pub open spec fn signature_text(
    parameters: Seq<FunctionParameterView>,
    required_only: bool,
    n: nat,
) -> Seq<char>
    decreases n,
{
    if n == 0 || n > parameters.len() {
        Seq::empty()
    } else {
        let before = signature_text(parameters, required_only, (n - 1) as nat);
        let parameter = parameters[n - 1];
        if required_only && !parameter.is_required {
            before
        } else {
            before + parameter.name + ": "@ + parameter.type_ + ", "@
        }
    }
}

/// The parameters that every generated function starts with: the client
/// and the credential.
pub open spec fn leading_parameters(client_parameter: Seq<char>) -> Seq<char> {
    client_parameter + ", api_key: &str, "@
}

/// The result type of a generated function.
pub open spec fn result_text(response: Seq<char>) -> Seq<char> {
    ") -> Result<"@ + response + ", crate::Error> {\n"@
}

/// The direct call of a function: every parameter explicit, the call plan
/// as its body.
pub open spec fn direct_call_text(function: FunctionDefinitionView, convention: Convention) -> Seq<
    char,
> {
    function.doc_comment + "\n"@ + "#[inline]\n"@ + function_keyword(convention.is_async)
        + function.name + "("@ + leading_parameters(convention.client_parameter) + signature_text(
        function.parameters,
        false,
        function.parameters.len(),
    ) + result_text(function.response) + function.body + "\n"@ + "}\n"@
}

/// The direct calls of the first `n` functions.
pub open spec fn direct_calls_text(
    functions: Seq<FunctionDefinitionView>,
    convention: Convention,
    n: nat,
) -> Seq<char>
    decreases n,
{
    if n == 0 || n > functions.len() {
        Seq::empty()
    } else {
        direct_calls_text(functions, convention, (n - 1) as nat) + direct_call_text(
            functions[n - 1],
            convention,
        )
    }
}

/// The module of the direct calls.
pub open spec fn functions_text(functions: Seq<FunctionDefinitionView>, convention: Convention) -> Seq<
    char,
> {
    types_import() + direct_calls_text(functions, convention, functions.len())
}

/// Whether one of the first `n` parameters is optional.
pub open spec fn has_optional(parameters: Seq<FunctionParameterView>, n: nat) -> bool
    decreases n,
{
    if n == 0 || n > parameters.len() {
        false
    } else {
        has_optional(parameters, (n - 1) as nat) || !parameters[n - 1].is_required
    }
}

/// The required ones among the first `n` parameters, in order.
pub open spec fn required_parameters(parameters: Seq<FunctionParameterView>, n: nat) -> Seq<
    FunctionParameterView,
>
    decreases n,
{
    if n == 0 || n > parameters.len() {
        Seq::empty()
    } else {
        let before = required_parameters(parameters, (n - 1) as nat);
        if parameters[n - 1].is_required {
            before.push(parameters[n - 1])
        } else {
            before
        }
    }
}

/// The name of the options type of the function called `name`.
pub open spec fn options_name(name: Seq<char>) -> Seq<char> {
    converted(name, Case::Pascal) + "Parameter"@
}

/// The names of the optional ones among the first `n` parameters, as the
/// fields of the pattern that takes the options apart.
pub open spec fn option_names_text(parameters: Seq<FunctionParameterView>, n: nat) -> Seq<char>
    decreases n,
{
    if n == 0 || n > parameters.len() {
        Seq::empty()
    } else {
        let before = option_names_text(parameters, (n - 1) as nat);
        if parameters[n - 1].is_required {
            before
        } else {
            before + "        "@ + parameters[n - 1].name + ",\n"@
        }
    }
}

/// The argument that hands one parameter on to the direct call. Optional
/// text, held owned or borrowed in the options, is handed on borrowed.
pub open spec fn argument_text(parameter: FunctionParameterView) -> Seq<char> {
    "        "@ + parameter.name + (if !parameter.is_required && occurs(
        parameter.type_,
        "&str"@,
    ) {
        ".as_deref()"@
    } else {
        ""@
    }) + ",\n"@
}

/// The arguments for the first `n` parameters.
pub open spec fn arguments_text(parameters: Seq<FunctionParameterView>, n: nat) -> Seq<char>
    decreases n,
{
    if n == 0 || n > parameters.len() {
        Seq::empty()
    } else {
        arguments_text(parameters, (n - 1) as nat) + argument_text(parameters[n - 1])
    }
}

/// The suffix of a call that suspends.
pub open spec fn await_text(is_async: bool) -> Seq<char> {
    if is_async {
        ".await"@
    } else {
        ""@
    }
}

/// The body of a convenience call: take the options apart, then delegate
/// to the direct call with every parameter.
pub open spec fn convenience_body(function: FunctionDefinitionView, is_async: bool) -> Seq<char> {
    "    let "@ + options_name(function.name) + " {\n"@ + option_names_text(
        function.parameters,
        function.parameters.len(),
    ) + "    } = remaining;\n"@ + "    "@ + functions_module(is_async) + "::"@ + function.name
        + "(\n        client,\n        api_key,\n"@ + arguments_text(
        function.parameters,
        function.parameters.len(),
    ) + "    )"@ + await_text(is_async) + "\n"@
}

/// The mathematical content of a [`ConvenienceDefinition`].
pub struct ConvenienceView {
    pub doc_comment: Seq<char>,
    pub name: Seq<char>,
    pub parameters: Seq<FunctionParameterView>,
    pub options: Seq<char>,
    pub response: Seq<char>,
    pub body: Seq<char>,
}

/// The convenience call of a function, which exists where the function has
/// an optional parameter: it takes the required parameters in their order
/// and one value of the options type.
pub open spec fn convenience(function: FunctionDefinitionView, is_async: bool) -> Option<
    ConvenienceView,
> {
    if has_optional(function.parameters, function.parameters.len()) {
        Some(
            ConvenienceView {
                doc_comment: function.doc_comment,
                name: function.name + "_with_parameter"@,
                parameters: required_parameters(function.parameters, function.parameters.len()),
                options: options_name(function.name),
                response: function.response,
                body: convenience_body(function, is_async),
            },
        )
    } else {
        None
    }
}

/// The text of a convenience call.
pub open spec fn convenience_call_text(call: ConvenienceView, convention: Convention) -> Seq<char> {
    call.doc_comment + "\n"@ + "#[inline]\n"@ + function_keyword(convention.is_async) + call.name
        + "("@ + leading_parameters(convention.client_parameter) + signature_text(
        call.parameters,
        false,
        call.parameters.len(),
    ) + "remaining: "@ + call.options + result_text(call.response) + call.body + "}\n"@
}

/// The convenience calls of the first `n` functions.
pub open spec fn convenience_calls_text(
    functions: Seq<FunctionDefinitionView>,
    convention: Convention,
    n: nat,
) -> Seq<char>
    decreases n,
{
    if n == 0 || n > functions.len() {
        Seq::empty()
    } else {
        let before = convenience_calls_text(functions, convention, (n - 1) as nat);
        match convenience(functions[n - 1], convention.is_async) {
            Some(call) => before + convenience_call_text(call, convention),
            None => before,
        }
    }
}

/// The head of the module of the convenience calls.
pub open spec fn convenience_import(is_async: bool) -> Seq<char> {
    "use crate::{parameter_types::*, types::*, "@ + functions_module(is_async) + "};\n"@
}

/// The module of the convenience calls.
pub open spec fn parametrized_functions_text(
    functions: Seq<FunctionDefinitionView>,
    convention: Convention,
) -> Seq<char> {
    convenience_import(convention.is_async) + convenience_calls_text(
        functions,
        convention,
        functions.len(),
    )
}

/// Writes the declarations of `definitions`.
pub fn declarations(definitions: &Vec<TypeDefinition>) -> (result: String)
    ensures
        result@ == declarations_text(views(definitions@), definitions@.len()),
{
    let mut result = String::new();
    let mut i: usize = 0;
    while i < definitions.len()
        invariant
            i <= definitions.len(),
            result@ == declarations_text(views(definitions@), i as nat),
        decreases definitions.len() - i,
    {
        proof {
            assert(views(definitions@)[i as int] == definitions@[i as int]@);
        }
        match &definitions[i].definition {
            Some(declaration) => {
                let mut own =
                    "#[derive(Debug, Default, Clone, PartialEq, serde::Serialize, serde::Deserialize)]\n".to_owned();
                own.append(declaration.as_str());
                own.append("\n");
                result.append(own.as_str());
            },
            None => {},
        }
        i += 1;
    }
    result
}

/// Renders the types module.
pub fn render_types(definitions: &Vec<TypeDefinition>) -> (result: String)
    ensures
        result@ == types_text(views(definitions@)),
{
    let mut result =
        "\nuse serde::Deserialize;\n\nfn null_to_default<'de, D, T>(deserializer: D) -> Result<T, D::Error>\nwhere\n    D: serde::Deserializer<'de>,\n    T: serde::Deserialize<'de> + Default,\n{\n    Option::<T>::deserialize(deserializer)\n        .map(|opt| opt.unwrap_or_default())\n    }\n".to_owned();
    let body = declarations(definitions);
    proof {
        assert(views(definitions@).len() == definitions@.len());
    }
    result.append(body.as_str());
    result
}

/// Renders the module of the options types.
pub fn render_parameter_types(definitions: &Vec<TypeDefinition>) -> (result: String)
    ensures
        result@ == parameter_types_text(views(definitions@)),
{
    let mut result = "use crate::types::*;\n".to_owned();
    let body = declarations(definitions);
    proof {
        assert(views(definitions@).len() == definitions@.len());
    }
    result.append(body.as_str());
    result
}

/// Writes the parameters of a signature.
fn signature(parameters: &Vec<FunctionParameter>, required_only: bool) -> (result: String)
    ensures
        result@ == signature_text(views(parameters@), required_only, parameters@.len()),
{
    let mut result = String::new();
    let mut i: usize = 0;
    while i < parameters.len()
        invariant
            i <= parameters.len(),
            result@ == signature_text(views(parameters@), required_only, i as nat),
        decreases parameters.len() - i,
    {
        let parameter = &parameters[i];
        proof {
            assert(views(parameters@)[i as int] == parameter@);
        }
        if !required_only || parameter.is_required {
            let mut own = parameter.name.clone();
            own.append(": ");
            own.append(parameter.type_.as_str());
            own.append(", ");
            proof {
                assert(result@ + own@ =~= result@ + parameter@.name + ": "@ + parameter@.type_
                    + ", "@);
            }
            result.append(own.as_str());
        }
        i += 1;
    }
    result
}

/// Writes the start of a function up to its own parameters.
fn function_head(doc_comment: &str, name: &str, fun: &FunctionDefinitionArgs) -> (result: String)
    ensures
        result@ == doc_comment@ + "\n"@ + "#[inline]\n"@ + function_keyword(fun@.is_async) + name@
            + "("@ + leading_parameters(fun@.client_parameter),
{
    let mut result = doc_comment.to_owned();
    result.append("\n");
    result.append("#[inline]\n");
    if fun.is_async {
        result.append("pub async fn ");
    } else {
        result.append("pub fn ");
    }
    result.append(name);
    result.append("(");
    let mut leading = fun.client_parameter.clone();
    leading.append(", api_key: &str, ");
    result.append(leading.as_str());
    result
}

/// Writes the result type that closes a signature.
fn result_type(response: &str) -> (result: String)
    ensures
        result@ == result_text(response@),
{
    let mut result = ") -> Result<".to_owned();
    result.append(response);
    result.append(", crate::Error> {\n");
    result
}

/// Renders the direct call of `function`.
pub fn render_function(function: &FunctionDefinition, fun: &FunctionDefinitionArgs) -> (result:
    String)
    ensures
        result@ == direct_call_text(function@, fun@),
{
    let mut result = function_head(function.doc_comment.as_str(), function.name.as_str(), fun);
    let parameters = signature(&function.parameters, false);
    proof {
        assert(function@.parameters.len() == function.parameters@.len());
    }
    result.append(parameters.as_str());
    let response = result_type(function.response.as_str());
    result.append(response.as_str());
    result.append(function.body.as_str());
    result.append("\n");
    result.append("}\n");
    result
}

/// Renders the module of the direct calls.
pub fn render_functions(functions: &Vec<FunctionDefinition>, fun: &FunctionDefinitionArgs) -> (result:
    String)
    ensures
        result@ == functions_text(views(functions@), fun@),
{
    let mut calls = String::new();
    let mut i: usize = 0;
    while i < functions.len()
        invariant
            i <= functions.len(),
            calls@ == direct_calls_text(views(functions@), fun@, i as nat),
        decreases functions.len() - i,
    {
        proof {
            assert(views(functions@)[i as int] == functions@[i as int]@);
        }
        let call = render_function(&functions[i], fun);
        calls.append(call.as_str());
        i += 1;
    }
    proof {
        assert(views(functions@).len() == functions@.len());
    }
    let mut result = "use crate::types::*;\n".to_owned();
    result.append(calls.as_str());
    result
}

/// The convenience call of an operation: the required parameters and one
/// value of the options type in place of the optional ones.
#[derive(Debug, Clone, PartialEq, Eq)]
pub struct ConvenienceDefinition {
    pub doc_comment: String,
    pub name: String,
    /// The required parameters, in the order of the direct call.
    pub parameters: Vec<FunctionParameter>,
    /// The name of the options type.
    pub options: String,
    pub response: String,
    pub body: String,
}

impl View for ConvenienceDefinition {
    type V = ConvenienceView;

    open spec fn view(&self) -> ConvenienceView {
        ConvenienceView {
            doc_comment: self.doc_comment@,
            name: self.name@,
            parameters: views(self.parameters@),
            options: self.options@,
            response: self.response@,
            body: self.body@,
        }
    }
}

/// Writes the body of the convenience call of `function`.
fn convenience_delegation(function: &FunctionDefinition, options: &str, is_async: bool) -> (result:
    String)
    requires
        options@ == options_name(function@.name),
    ensures
        result@ == convenience_body(function@, is_async),
{
    let parameters = &function.parameters;
    let mut names = String::new();
    let mut arguments = String::new();
    let mut i: usize = 0;
    while i < parameters.len()
        invariant
            i <= parameters.len(),
            names@ == option_names_text(views(parameters@), i as nat),
            arguments@ == arguments_text(views(parameters@), i as nat),
        decreases parameters.len() - i,
    {
        let parameter = &parameters[i];
        proof {
            assert(views(parameters@)[i as int] == parameter@);
        }
        if !parameter.is_required {
            let mut own = "        ".to_owned();
            own.append(parameter.name.as_str());
            own.append(",\n");
            proof {
                assert(names@ + own@ =~= names@ + "        "@ + parameter@.name + ",\n"@);
            }
            names.append(own.as_str());
        }
        let mut argument = "        ".to_owned();
        argument.append(parameter.name.as_str());
        let borrowed = if !parameter.is_required && contains(parameter.type_.as_str(), "&str") {
            ".as_deref()"
        } else {
            ""
        };
        argument.append(borrowed);
        argument.append(",\n");
        arguments.append(argument.as_str());
        i += 1;
    }
    proof {
        assert(function@.parameters.len() == parameters@.len());
    }
    let mut result = "    let ".to_owned();
    result.append(options);
    result.append(" {\n");
    result.append(names.as_str());
    result.append("    } = remaining;\n");
    result.append("    ");
    if is_async {
        result.append("async_functions");
    } else {
        result.append("functions");
    }
    result.append("::");
    result.append(function.name.as_str());
    result.append("(\n        client,\n        api_key,\n");
    result.append(arguments.as_str());
    result.append("    )");
    let suffix = if is_async {
        ".await"
    } else {
        ""
    };
    result.append(suffix);
    result.append("\n");
    result
}

/// Derives the convenience call of `function`: none for a function without
/// optional parameters.
pub fn convenience_call(function: &FunctionDefinition, is_async: bool) -> (result: Option<
    ConvenienceDefinition,
>)
    ensures
        match result {
            Some(call) => convenience(function@, is_async) == Some(call@),
            None => convenience(function@, is_async) is None,
        },
{
    let parameters = &function.parameters;
    let mut required: Vec<FunctionParameter> = Vec::new();
    let mut optional = false;
    let mut i: usize = 0;
    proof {
        lemma_views_empty(required@);
    }
    while i < parameters.len()
        invariant
            i <= parameters.len(),
            optional == has_optional(views(parameters@), i as nat),
            views(required@) == required_parameters(views(parameters@), i as nat),
        decreases parameters.len() - i,
    {
        let parameter = &parameters[i];
        proof {
            assert(views(parameters@)[i as int] == parameter@);
        }
        if parameter.is_required {
            let own = FunctionParameter {
                name: parameter.name.clone(),
                type_: parameter.type_.clone(),
                is_required: true,
            };
            proof {
                lemma_views_push(required@, own);
            }
            required.push(own);
        } else {
            optional = true;
        }
        i += 1;
    }
    proof {
        assert(function@.parameters.len() == parameters@.len());
    }
    if !optional {
        return None;
    }
    let mut options = to_case(function.name.as_str(), Case::Pascal);
    options.append("Parameter");
    let body = convenience_delegation(function, options.as_str(), is_async);
    let mut name = function.name.clone();
    name.append("_with_parameter");
    Some(
        ConvenienceDefinition {
            doc_comment: function.doc_comment.clone(),
            name,
            parameters: required,
            options,
            response: function.response.clone(),
            body,
        },
    )
}

/// Renders a convenience call.
pub fn render_convenience(call: &ConvenienceDefinition, fun: &FunctionDefinitionArgs) -> (result:
    String)
    ensures
        result@ == convenience_call_text(call@, fun@),
{
    let mut result = function_head(call.doc_comment.as_str(), call.name.as_str(), fun);
    let parameters = signature(&call.parameters, false);
    proof {
        assert(call@.parameters.len() == call.parameters@.len());
    }
    result.append(parameters.as_str());
    result.append("remaining: ");
    result.append(call.options.as_str());
    let response = result_type(call.response.as_str());
    result.append(response.as_str());
    result.append(call.body.as_str());
    result.append("}\n");
    result
}

/// Renders the module of the convenience calls.
pub fn render_parametrized_functions(
    functions: &Vec<FunctionDefinition>,
    fun: &FunctionDefinitionArgs,
) -> (result: String)
    ensures
        result@ == parametrized_functions_text(views(functions@), fun@),
{
    let mut calls = String::new();
    let mut i: usize = 0;
    while i < functions.len()
        invariant
            i <= functions.len(),
            calls@ == convenience_calls_text(views(functions@), fun@, i as nat),
        decreases functions.len() - i,
    {
        proof {
            assert(views(functions@)[i as int] == functions@[i as int]@);
        }
        match convenience_call(&functions[i], fun.is_async) {
            Some(call) => {
                let text = render_convenience(&call, fun);
                calls.append(text.as_str());
            },
            None => {},
        }
        i += 1;
    }
    proof {
        assert(views(functions@).len() == functions@.len());
    }
    let mut result = "use crate::{parameter_types::*, types::*, ".to_owned();
    if fun.is_async {
        result.append("async_functions");
    } else {
        result.append("functions");
    }
    result.append("};\n");
    let mut whole = result;
    whole.append(calls.as_str());
    whole
}

} // verus!
