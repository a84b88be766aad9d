use tmdb_easy::emit::{
    convenience_call, declarations, render_convenience, render_function, render_functions,
    render_parameter_types, render_parametrized_functions, render_types, ConvenienceDefinition,
};
use tmdb_easy::functions::{FunctionDefinition, FunctionDefinitionArgs, FunctionParameter};
use tmdb_easy::types::TypeDefinition;

fn blocking() -> FunctionDefinitionArgs {
    FunctionDefinitionArgs {
        is_async: false,
        client_parameter: "client: &reqwest::blocking::Client".to_string(),
        base_url: "https://api.themoviedb.org".to_string(),
    }
}

fn suspending() -> FunctionDefinitionArgs {
    FunctionDefinitionArgs {
        is_async: true,
        client_parameter: "client: &reqwest::Client".to_string(),
        base_url: "https://api.themoviedb.org".to_string(),
    }
}

fn parameter(name: &str, type_: &str, is_required: bool) -> FunctionParameter {
    FunctionParameter { name: name.to_string(), type_: type_.to_string(), is_required }
}

fn function(name: &str, parameters: Vec<FunctionParameter>) -> FunctionDefinition {
    FunctionDefinition {
        doc_comment: "/// Summary\n///\n/// Description.".to_string(),
        name: name.to_string(),
        parameters,
        response: "Answer".to_string(),
        body: "    BODY".to_string(),
    }
}

fn search_movie() -> FunctionDefinition {
    function(
        "search_movie",
        vec![
            parameter("query", "&str", true),
            parameter("language", "Option<&str>", false),
            parameter("page", "Option<i64>", false),
        ],
    )
}

const DERIVES: &str =
    "#[derive(Debug, Default, Clone, PartialEq, serde::Serialize, serde::Deserialize)]\n";

const PRELUDE: &str = "\nuse serde::Deserialize;\n\nfn null_to_default<'de, D, T>(deserializer: D) -> Result<T, D::Error>\nwhere\n    D: serde::Deserializer<'de>,\n    T: serde::Deserialize<'de> + Default,\n{\n    Option::<T>::deserialize(deserializer)\n        .map(|opt| opt.unwrap_or_default())\n    }\n";

fn definitions() -> Vec<TypeDefinition> {
    vec![
        TypeDefinition { name: "i64".to_string(), ref_name: "i64".to_string(), definition: None },
        TypeDefinition {
            name: "A".to_string(),
            ref_name: "A".to_string(),
            definition: Some("pub struct A {\n}\n".to_string()),
        },
        TypeDefinition {
            name: "Vec<A>".to_string(),
            ref_name: "&[A]".to_string(),
            definition: None,
        },
        TypeDefinition {
            name: "B".to_string(),
            ref_name: "B".to_string(),
            definition: Some("pub struct B {\n}\n".to_string()),
        },
    ]
}

#[test]
fn only_definitions_with_a_declaration_are_declared() {
    assert_eq!(
        declarations(&definitions()),
        format!("{DERIVES}pub struct A {{\n}}\n\n{DERIVES}pub struct B {{\n}}\n\n")
    );
    assert_eq!(declarations(&Vec::new()), "");
}

#[test]
fn types_module_starts_with_the_decoding_rule() {
    assert_eq!(
        render_types(&definitions()),
        format!("{PRELUDE}{DERIVES}pub struct A {{\n}}\n\n{DERIVES}pub struct B {{\n}}\n\n")
    );
    assert_eq!(render_types(&Vec::new()), PRELUDE);
}

#[test]
fn options_module_imports_the_types() {
    assert_eq!(
        render_parameter_types(&definitions()),
        format!("use crate::types::*;\n{DERIVES}pub struct A {{\n}}\n\n{DERIVES}pub struct B {{\n}}\n\n")
    );
}

#[test]
fn direct_call_lists_every_parameter() {
    assert_eq!(
        render_function(&search_movie(), &blocking()),
        "/// Summary\n///\n/// Description.\n#[inline]\npub fn search_movie(client: &reqwest::blocking::Client, api_key: &str, query: &str, language: Option<&str>, page: Option<i64>, ) -> Result<Answer, crate::Error> {\n    BODY\n}\n"
    );
}

#[test]
fn suspending_direct_call_is_marked_as_such() {
    assert_eq!(
        render_function(&function("ping", vec![]), &suspending()),
        "/// Summary\n///\n/// Description.\n#[inline]\npub async fn ping(client: &reqwest::Client, api_key: &str, ) -> Result<Answer, crate::Error> {\n    BODY\n}\n"
    );
}

#[test]
fn functions_module_holds_the_direct_calls_in_order() {
    let functions = vec![function("first", vec![]), function("second", vec![])];
    let expected = format!(
        "use crate::types::*;\n{}{}",
        render_function(&functions[0], &blocking()),
        render_function(&functions[1], &blocking())
    );
    assert_eq!(render_functions(&functions, &blocking()), expected);
    assert_eq!(render_functions(&Vec::new(), &blocking()), "use crate::types::*;\n");
}

#[test]
fn function_without_optional_parameter_has_no_convenience_call() {
    assert_eq!(convenience_call(&function("ping", vec![]), false), None);
    assert_eq!(
        convenience_call(&function("movie_details", vec![parameter("movie_id", "i64", true)]), false),
        None
    );
}

#[test]
fn convenience_call_takes_the_required_parameters_and_the_options() {
    let call = convenience_call(&search_movie(), false).unwrap();
    assert_eq!(
        call,
        ConvenienceDefinition {
            doc_comment: "/// Summary\n///\n/// Description.".to_string(),
            name: "search_movie_with_parameter".to_string(),
            parameters: vec![parameter("query", "&str", true)],
            options: "SearchMovieParameter".to_string(),
            response: "Answer".to_string(),
            body: "    let SearchMovieParameter {\n        language,\n        page,\n    } = remaining;\n    functions::search_movie(\n        client,\n        api_key,\n        query,\n        language.as_deref(),\n        page,\n    )\n"
                .to_string(),
        }
    );
}

#[test]
fn required_parameters_keep_their_positions() {
    let direct = function(
        "discover",
        vec![
            parameter("a", "i64", true),
            parameter("b", "Option<i64>", false),
            parameter("c", "&str", true),
            parameter("d", "Option<bool>", false),
            parameter("e", "bool", true),
        ],
    );
    let call = convenience_call(&direct, false).unwrap();
    let required: Vec<FunctionParameter> = direct.parameters.iter().filter(|p| p.is_required).cloned().collect();
    assert_eq!(call.parameters, required);
}

#[test]
fn suspending_convenience_call_awaits_the_direct_call() {
    let call = convenience_call(&search_movie(), true).unwrap();
    assert_eq!(
        call.body,
        "    let SearchMovieParameter {\n        language,\n        page,\n    } = remaining;\n    async_functions::search_movie(\n        client,\n        api_key,\n        query,\n        language.as_deref(),\n        page,\n    ).await\n"
    );
}

#[test]
fn convenience_call_is_rendered_with_its_options_last() {
    let call = convenience_call(&search_movie(), false).unwrap();
    assert_eq!(
        render_convenience(&call, &blocking()),
        format!(
            "/// Summary\n///\n/// Description.\n#[inline]\npub fn search_movie_with_parameter(client: &reqwest::blocking::Client, api_key: &str, query: &str, remaining: SearchMovieParameter) -> Result<Answer, crate::Error> {{\n{}}}\n",
            call.body
        )
    );
}

#[test]
fn convenience_module_holds_one_call_for_each_function_with_options() {
    let functions = vec![function("ping", vec![]), search_movie(), function("pong", vec![parameter("id", "i64", true)])];
    let call = convenience_call(&search_movie(), false).unwrap();
    assert_eq!(
        render_parametrized_functions(&functions, &blocking()),
        format!(
            "use crate::{{parameter_types::*, types::*, functions}};\n{}",
            render_convenience(&call, &blocking())
        )
    );
    let suspended = convenience_call(&search_movie(), true).unwrap();
    assert_eq!(
        render_parametrized_functions(&functions, &suspending()),
        format!(
            "use crate::{{parameter_types::*, types::*, async_functions}};\n{}",
            render_convenience(&suspended, &suspending())
        )
    );
}
