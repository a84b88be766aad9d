use tmdb_easy::functions::GenerationError;
use tmdb_easy::generate::generate;
use tmdb_easy::schema::{
    ParameterLocation, PathRoute, PathRouteParameter, PathRouteResponse, ResponseSchema, Schema,
    SchemaInfo, SchemaPath, SchemaPaths, SchemaServerUrl, SchemaServers, TaggedTypeSchema,
    TypeSchema,
};
use tmdb_easy::types::{collect_types_for, collect_types_in_path_route, TypeDefinition};

fn integer() -> TypeSchema {
    TypeSchema::Tagged(TaggedTypeSchema::Integer { default: None })
}

fn text() -> TypeSchema {
    TypeSchema::Tagged(TaggedTypeSchema::String { default: None })
}

fn object(properties: Vec<(&str, TypeSchema)>) -> TypeSchema {
    TypeSchema::Tagged(TaggedTypeSchema::Object {
        properties: properties.into_iter().map(|(name, schema)| (name.to_string(), schema)).collect(),
    })
}

fn response(status: &str, schemas: Vec<TypeSchema>) -> (String, PathRouteResponse) {
    (
        status.to_string(),
        PathRouteResponse {
            description: String::new(),
            content: schemas
                .into_iter()
                .map(|schema| ("application/json".to_string(), ResponseSchema { schema }))
                .collect(),
        },
    )
}

fn search_movie() -> PathRoute {
    PathRoute {
        operation_id: "search-movie".to_string(),
        summary: "Search Movie".to_string(),
        description: "Search for movies.".to_string(),
        parameters: vec![
            PathRouteParameter {
                name: "query".to_string(),
                location: ParameterLocation::Query,
                schema: text(),
                description: None,
                required: true,
            },
            PathRouteParameter {
                name: "page".to_string(),
                location: ParameterLocation::Query,
                schema: integer(),
                description: None,
                required: false,
            },
        ],
        responses: vec![response("200", vec![object(vec![("page", integer())])])],
        deprecated: false,
    }
}

fn schema(paths: Vec<(&str, Option<PathRoute>)>) -> Schema {
    Schema {
        info: SchemaInfo { title: "API".to_string(), version: "3".to_string() },
        servers: SchemaServers(vec![
            SchemaServerUrl { url: "https://api.themoviedb.org".to_string() },
            SchemaServerUrl { url: "https://mirror.example.org".to_string() },
        ]),
        paths: SchemaPaths(paths.into_iter().map(|(path, get)| (path.to_string(), SchemaPath { get })).collect()),
    }
}

#[test]
fn route_types_are_those_of_parameters_then_responses() {
    let mut result = vec![TypeDefinition {
        name: "Before".to_string(),
        ref_name: "Before".to_string(),
        definition: None,
    }];
    collect_types_in_path_route(&search_movie(), &mut result, "search-movie".to_string());
    let names: Vec<&str> = result.iter().map(|d| d.name.as_str()).collect();
    assert_eq!(names, vec!["Before", "String", "i64", "i64", "SearchMovieResponse200"]);
}

#[test]
fn every_content_entry_of_a_response_contributes_its_types() {
    let mut get = search_movie();
    get.responses = vec![response("200", vec![integer(), object(vec![("id", integer())])])];
    let mut result = Vec::new();
    collect_types_in_path_route(&get, &mut result, "op".to_string());
    let names: Vec<&str> = result.iter().map(|d| d.name.as_str()).collect();
    assert_eq!(names, vec!["String", "i64", "i64", "i64", "OpResponse200"]);
}

#[test]
fn types_are_collected_over_all_read_routes() {
    let document = schema(vec![("/a", Some(search_movie())), ("/b", None), ("/c", Some(search_movie()))]);
    let names: Vec<String> = collect_types_for(&document).into_iter().map(|d| d.name).collect();
    assert_eq!(
        names,
        vec!["String", "i64", "i64", "SearchMovieResponse200", "String", "i64", "i64", "SearchMovieResponse200"]
    );
}

#[test]
fn generation_renders_every_module_for_both_conventions() {
    let artifacts = generate(&schema(vec![("/3/search/movie", Some(search_movie()))])).unwrap();
    assert!(artifacts.types.starts_with("\nuse serde::Deserialize;\n"));
    assert!(artifacts.types.ends_with(
        "#[derive(Debug, Default, Clone, PartialEq, serde::Serialize, serde::Deserialize)]\npub struct SearchMovieResponse200 {\n#[serde(default, deserialize_with = \"null_to_default\")]\n    pub page: i64,\n}\n\n"
    ));
    assert_eq!(
        artifacts.parameter_types,
        "use crate::types::*;\n#[derive(Debug, Default, Clone, PartialEq, serde::Serialize, serde::Deserialize)]\npub struct SearchMovieParameter {\n    #[serde(default)]\n    pub page: Option<i64>,\n}\n\n"
    );
    assert!(artifacts.functions.starts_with(
        "use crate::types::*;\n/// Search Movie\n///\n/// Search for movies.\n#[inline]\npub fn search_movie(client: &reqwest::blocking::Client, api_key: &str, query: &str, page: Option<i64>, ) -> Result<SearchMovieResponse200, crate::Error> {\n    let mut r = client.get(format!(\"https://api.themoviedb.org/3/search/movie\"));\n"
    ));
    assert!(artifacts.async_functions.contains("pub async fn search_movie(client: &reqwest::Client, api_key: &str, "));
    assert!(artifacts.async_functions.contains("client.execute(r).await"));
    assert!(!artifacts.functions.contains(".await"));
    assert!(artifacts
        .parametrized_functions
        .starts_with("use crate::{parameter_types::*, types::*, functions};\n"));
    assert!(artifacts
        .parametrized_functions
        .contains("pub fn search_movie_with_parameter(client: &reqwest::blocking::Client, api_key: &str, query: &str, remaining: SearchMovieParameter)"));
    assert!(artifacts
        .async_parametrized_functions
        .contains("    async_functions::search_movie(\n        client,\n        api_key,\n        query,\n        page,\n    ).await\n"));
}

#[test]
fn both_conventions_build_the_same_request() {
    let artifacts = generate(&schema(vec![("/3/search/movie", Some(search_movie()))])).unwrap();
    let blocking = artifacts.functions.replace("pub fn ", "pub async fn ").replace(
        "client: &reqwest::blocking::Client",
        "client: &reqwest::Client",
    );
    let suspending = artifacts.async_functions.replace(".await", "");
    assert_eq!(blocking, suspending);
}

#[test]
fn document_without_read_routes_generates_empty_modules() {
    let artifacts = generate(&schema(vec![("/a", None)])).unwrap();
    assert_eq!(artifacts.functions, "use crate::types::*;\n");
    assert_eq!(artifacts.async_functions, "use crate::types::*;\n");
    assert_eq!(artifacts.parameter_types, "use crate::types::*;\n");
    assert_eq!(artifacts.parametrized_functions, "use crate::{parameter_types::*, types::*, functions};\n");
    assert_eq!(
        artifacts.async_parametrized_functions,
        "use crate::{parameter_types::*, types::*, async_functions};\n"
    );
}

#[test]
fn unsupported_route_stops_the_whole_run() {
    let mut bad = search_movie();
    bad.responses = vec![
        response("200", vec![integer()]),
        response("404", vec![integer()]),
        response("422", vec![integer()]),
    ];
    assert_eq!(
        generate(&schema(vec![("/a", Some(search_movie())), ("/b", Some(bad))])),
        Err(GenerationError::UnsupportedResponses)
    );
}
