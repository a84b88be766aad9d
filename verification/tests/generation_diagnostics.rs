use tmdb_easy::diagnostics::{diagnose, summarize, Diagnostic, RouteOutcome, Summary};
use tmdb_easy::functions::{collect_functions_for, FunctionDefinitionArgs, GenerationError};
use tmdb_easy::schema::{
    ParameterLocation, PathRoute, PathRouteParameter, PathRouteResponse, ResponseSchema, Schema,
    SchemaInfo, SchemaPath, SchemaPaths, SchemaServerUrl, SchemaServers, TaggedTypeSchema,
    TypeSchema,
};

fn integer() -> TypeSchema {
    TypeSchema::Tagged(TaggedTypeSchema::Integer { default: None })
}

fn route(operation_id: &str, parameter: Option<TypeSchema>, responses: Vec<(&str, usize)>) -> PathRoute {
    PathRoute {
        operation_id: operation_id.to_string(),
        summary: String::new(),
        description: String::new(),
        parameters: parameter
            .into_iter()
            .map(|schema| PathRouteParameter {
                name: "p".to_string(),
                location: ParameterLocation::Query,
                schema,
                description: None,
                required: true,
            })
            .collect(),
        responses: responses
            .into_iter()
            .map(|(status, entries)| {
                (
                    status.to_string(),
                    PathRouteResponse {
                        description: String::new(),
                        content: (0..entries)
                            .map(|_| ("application/json".to_string(), ResponseSchema { schema: integer() }))
                            .collect(),
                    },
                )
            })
            .collect(),
        deprecated: false,
    }
}

fn blocking() -> FunctionDefinitionArgs {
    FunctionDefinitionArgs {
        is_async: false,
        client_parameter: "client: &reqwest::blocking::Client".to_string(),
        base_url: "https://example.org".to_string(),
    }
}

fn document() -> Schema {
    let paths = vec![
        ("/fine", Some(route("fine", Some(integer()), vec![("200", 1)]))),
        ("/none", None),
        ("/untyped", Some(route("untyped", Some(TypeSchema::Empty(Vec::new())), vec![("200", 1)]))),
        ("/crowded", Some(route("crowded", None, vec![("200", 2)]))),
        ("/many", Some(route("many", None, vec![("200", 1), ("404", 1), ("500", 1)]))),
        ("/also-fine", Some(route("also-fine", None, vec![]))),
    ];
    Schema {
        info: SchemaInfo { title: "API".to_string(), version: "3".to_string() },
        servers: SchemaServers(vec![SchemaServerUrl { url: "https://example.org".to_string() }]),
        paths: SchemaPaths(paths.into_iter().map(|(path, get)| (path.to_string(), SchemaPath { get })).collect()),
    }
}

fn diagnostic(path: &str, operation_id: &str, outcome: RouteOutcome) -> Diagnostic {
    Diagnostic { path: path.to_string(), operation_id: operation_id.to_string(), outcome }
}

#[test]
fn every_route_is_reported_even_behind_one_that_stops_generation() {
    assert_eq!(
        diagnose(&document(), &blocking()),
        vec![
            diagnostic("/fine", "fine", RouteOutcome::Compiled),
            diagnostic("/untyped", "untyped", RouteOutcome::Skipped),
            diagnostic("/crowded", "crowded", RouteOutcome::Aborted(GenerationError::ContentEntries)),
            diagnostic("/many", "many", RouteOutcome::Aborted(GenerationError::UnsupportedResponses)),
            diagnostic("/also-fine", "also-fine", RouteOutcome::Compiled),
        ]
    );
}

#[test]
fn summary_counts_each_outcome() {
    let diagnostics = diagnose(&document(), &blocking());
    assert_eq!(summarize(&diagnostics), Summary { compiled: 2, skipped: 1, aborted: 2 });
    assert_eq!(summarize(&Vec::new()), Summary { compiled: 0, skipped: 0, aborted: 0 });
}

#[test]
fn collection_succeeds_where_no_route_is_reported_as_aborted() {
    let mut schema = document();
    assert!(collect_functions_for(&schema, &blocking()).is_err());
    schema.paths.0.retain(|(path, _)| path != "/crowded" && path != "/many");
    let summary = summarize(&diagnose(&schema, &blocking()));
    assert_eq!(summary.aborted, 0);
    assert_eq!(collect_functions_for(&schema, &blocking()).unwrap().len(), summary.compiled);
}
