use tmdb_easy::parameters::{
    any_optional_text, collect_parameter_types_for, collect_parameter_types_in_path_route,
};
use tmdb_easy::schema::{
    ParameterLocation, PathRoute, PathRouteParameter, Schema, SchemaInfo, SchemaPath, SchemaPaths,
    SchemaServerUrl, SchemaServers, TaggedTypeSchema, TypeSchema,
};
use tmdb_easy::types::TypeDefinition;

fn integer() -> TypeSchema {
    TypeSchema::Tagged(TaggedTypeSchema::Integer { default: None })
}

fn text() -> TypeSchema {
    TypeSchema::Tagged(TaggedTypeSchema::String { default: None })
}

fn parameter(name: &str, schema: TypeSchema, description: Option<&str>, required: bool) -> PathRouteParameter {
    PathRouteParameter {
        name: name.to_string(),
        location: ParameterLocation::Query,
        schema,
        description: description.map(|d| d.to_string()),
        required,
    }
}

fn route(operation_id: &str, parameters: Vec<PathRouteParameter>) -> PathRoute {
    PathRoute {
        operation_id: operation_id.to_string(),
        summary: String::new(),
        description: String::new(),
        parameters,
        responses: Vec::new(),
        deprecated: false,
    }
}

fn build(get: &PathRoute) -> Option<TypeDefinition> {
    collect_parameter_types_in_path_route(get, get.operation_id.clone())
}

#[test]
fn operation_without_optional_parameter_has_no_options_type() {
    assert_eq!(build(&route("ping", vec![])), None);
    assert_eq!(build(&route("search-movie", vec![parameter("query", text(), None, true)])), None);
}

#[test]
fn options_type_has_one_field_for_each_optional_parameter() {
    let get = route(
        "search-movie",
        vec![
            parameter("query", text(), None, true),
            parameter("year", integer(), None, false),
            parameter("page", integer(), None, false),
        ],
    );
    assert_eq!(
        build(&get),
        Some(TypeDefinition {
            name: "SearchMovie".to_string(),
            ref_name: "SearchMovie".to_string(),
            definition: Some(
                "pub struct SearchMovieParameter {\n    #[serde(default)]\n    pub year: Option<i64>,\n    #[serde(default)]\n    pub page: Option<i64>,\n}\n"
                    .to_string()
            ),
        })
    );
}

#[test]
fn optional_text_is_borrowed_or_owned() {
    let get = route(
        "tv-details",
        vec![
            parameter("language", text(), Some("Language of the answer"), false),
            parameter("type", integer(), None, false),
        ],
    );
    assert_eq!(
        build(&get).unwrap().definition.unwrap(),
        "pub struct TvDetailsParameter<'a> {\n    /// Language of the answer\n    #[serde(default)]\n    pub language: Option<std::borrow::Cow<'a, str>>,\n    #[serde(default)]\n    pub r#type: Option<i64>,\n}\n"
    );
}

#[test]
fn required_text_does_not_make_the_options_type_borrow() {
    let parameters = vec![parameter("query", text(), None, true), parameter("page", integer(), None, false)];
    assert!(!any_optional_text(&parameters));
    let borrowing = vec![parameter("query", text(), None, false)];
    assert!(any_optional_text(&borrowing));
    let sequences = vec![parameter(
        "names",
        TypeSchema::Tagged(TaggedTypeSchema::Array { items: Box::new(text()) }),
        None,
        false,
    )];
    assert!(!any_optional_text(&sequences));
}

#[test]
fn untyped_optional_parameter_leaves_no_options_type() {
    let get = route(
        "discover",
        vec![parameter("page", integer(), None, false), parameter("filter", TypeSchema::Empty(Vec::new()), None, false)],
    );
    assert_eq!(build(&get), None);
}

#[test]
fn untyped_required_parameter_does_not_matter_to_the_options_type() {
    let get = route(
        "discover",
        vec![parameter("filter", TypeSchema::Empty(Vec::new()), None, true), parameter("page", integer(), None, false)],
    );
    assert_eq!(
        build(&get).unwrap().definition.unwrap(),
        "pub struct DiscoverParameter {\n    #[serde(default)]\n    pub page: Option<i64>,\n}\n"
    );
}

#[test]
fn options_types_are_collected_in_path_order() {
    let schema = Schema {
        info: SchemaInfo { title: "API".to_string(), version: "3".to_string() },
        servers: SchemaServers(vec![SchemaServerUrl { url: "https://example.org".to_string() }]),
        paths: SchemaPaths(vec![
            ("/a".to_string(), SchemaPath { get: Some(route("first-one", vec![parameter("page", integer(), None, false)])) }),
            ("/b".to_string(), SchemaPath { get: None }),
            ("/c".to_string(), SchemaPath { get: Some(route("no-options", vec![parameter("id", integer(), None, true)])) }),
            ("/d".to_string(), SchemaPath { get: Some(route("second-one", vec![parameter("page", integer(), None, false)])) }),
        ]),
    };
    let names: Vec<String> = collect_parameter_types_for(&schema).into_iter().map(|d| d.name).collect();
    assert_eq!(names, vec!["FirstOne".to_string(), "SecondOne".to_string()]);
}
