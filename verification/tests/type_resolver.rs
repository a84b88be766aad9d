use tmdb_easy::schema::{TaggedTypeSchema, TypeSchema};
use tmdb_easy::types::{combine, field_name, parameter_name, TypeDefinition};

fn integer() -> TypeSchema {
    TypeSchema::Tagged(TaggedTypeSchema::Integer { default: None })
}

fn text() -> TypeSchema {
    TypeSchema::Tagged(TaggedTypeSchema::String { default: None })
}

fn unknown() -> TypeSchema {
    TypeSchema::Empty(vec![("$ref".to_string(), "#/components/x".to_string())])
}

fn array(items: TypeSchema) -> TypeSchema {
    TypeSchema::Tagged(TaggedTypeSchema::Array { items: Box::new(items) })
}

fn object(properties: Vec<(&str, TypeSchema)>) -> TypeSchema {
    TypeSchema::Tagged(TaggedTypeSchema::Object {
        properties: properties.into_iter().map(|(name, schema)| (name.to_string(), schema)).collect(),
    })
}

fn primitive(name: &str) -> TypeDefinition {
    TypeDefinition { name: name.to_string(), ref_name: name.to_string(), definition: None }
}

#[test]
fn unknown_schema_resolves_to_nothing() {
    assert!(TypeDefinition::from_type_schema(&unknown(), "Anything".to_string()).is_empty());
}

#[test]
fn scalars_resolve_to_one_primitive() {
    let boolean = TypeSchema::Tagged(TaggedTypeSchema::Boolean { default: Some(true) });
    let number = TypeSchema::Tagged(TaggedTypeSchema::Number { default: None });
    assert_eq!(TypeDefinition::from_type_schema(&boolean, "n".to_string()), vec![primitive("bool")]);
    assert_eq!(TypeDefinition::from_type_schema(&integer(), "n".to_string()), vec![primitive("i64")]);
    assert_eq!(TypeDefinition::from_type_schema(&number, "n".to_string()), vec![primitive("f64")]);
}

#[test]
fn text_has_an_owned_and_a_borrowed_form() {
    assert_eq!(
        TypeDefinition::from_type_schema(&text(), "n".to_string()),
        vec![TypeDefinition {
            name: "String".to_string(),
            ref_name: "&str".to_string(),
            definition: None
        }]
    );
}

#[test]
fn unresolvable_property_is_dropped_from_its_struct() {
    let schema = object(vec![("a", unknown()), ("b", integer())]);
    let definitions = TypeDefinition::from_type_schema(&schema, "search-movie_Response200".to_string());
    assert_eq!(
        definitions,
        vec![
            primitive("i64"),
            TypeDefinition {
                name: "SearchMovieResponse200".to_string(),
                ref_name: "SearchMovieResponse200".to_string(),
                definition: Some(
                    "pub struct SearchMovieResponse200 {\n#[serde(default, deserialize_with = \"null_to_default\")]\n    pub b: i64,\n}\n"
                        .to_string()
                ),
            },
        ]
    );
}

#[test]
fn struct_without_resolved_property_is_omitted() {
    let schema = object(vec![("a", unknown()), ("b", array(unknown()))]);
    assert!(TypeDefinition::from_type_schema(&schema, "Thing".to_string()).is_empty());
    assert!(TypeDefinition::from_type_schema(&object(vec![]), "Thing".to_string()).is_empty());
}

#[test]
fn array_of_unknown_items_resolves_to_nothing() {
    assert!(TypeDefinition::from_type_schema(&array(unknown()), "Items".to_string()).is_empty());
}

#[test]
fn array_of_resolved_items_is_a_sequence() {
    assert_eq!(
        TypeDefinition::from_type_schema(&array(text()), "Items".to_string()),
        vec![
            TypeDefinition {
                name: "String".to_string(),
                ref_name: "&str".to_string(),
                definition: None
            },
            TypeDefinition {
                name: "Vec<String>".to_string(),
                ref_name: "&[String]".to_string(),
                definition: None
            },
        ]
    );
}

#[test]
fn nested_objects_come_before_the_struct_that_refers_to_them() {
    let schema = object(vec![
        ("page", integer()),
        ("results", array(object(vec![("id", integer()), ("poster_path", text())]))),
        ("total_pages", integer()),
    ]);
    let definitions = TypeDefinition::from_type_schema(&schema, "search-movie_Response200".to_string());
    let names: Vec<&str> = definitions.iter().map(|d| d.name.as_str()).collect();
    assert_eq!(
        names,
        vec![
            "i64",
            "i64",
            "String",
            "SearchMovieResponse200Results",
            "Vec<SearchMovieResponse200Results>",
            "i64",
            "SearchMovieResponse200",
        ]
    );
    assert_eq!(
        definitions[3].definition.as_deref(),
        Some(
            "pub struct SearchMovieResponse200Results {\n#[serde(default, deserialize_with = \"null_to_default\")]\n    pub id: i64,\n#[serde(default, deserialize_with = \"null_to_default\")]\n    pub poster_path: String,\n}\n"
        )
    );
    assert_eq!(
        definitions[6].definition.as_deref(),
        Some(
            "pub struct SearchMovieResponse200 {\n#[serde(default, deserialize_with = \"null_to_default\")]\n    pub page: i64,\n#[serde(default, deserialize_with = \"null_to_default\")]\n    pub results: Vec<SearchMovieResponse200Results>,\n#[serde(default, deserialize_with = \"null_to_default\")]\n    pub total_pages: i64,\n}\n"
        )
    );
}

#[test]
fn same_shape_under_two_namespaces_gives_two_types() {
    let first = TypeDefinition::from_type_schema(&object(vec![("id", integer())]), "a_item".to_string());
    let second = TypeDefinition::from_type_schema(&object(vec![("id", integer())]), "b_item".to_string());
    assert_eq!(first.last().unwrap().name, "AItem");
    assert_eq!(second.last().unwrap().name, "BItem");
}

#[test]
fn combine_joins_with_an_underscore_unless_the_namespace_is_empty() {
    assert_eq!(combine("search-movie", "query"), "search-movie_query");
    assert_eq!(combine("", "query"), "query");
}

#[test]
fn parameter_names_are_snake_case_without_dots() {
    assert_eq!(parameter_name("movieId"), "movie_id");
    assert_eq!(parameter_name("release_date.gte"), "release_date_gte");
    assert_eq!(parameter_name("page"), "page");
}

#[test]
fn keyword_fields_are_written_raw() {
    assert_eq!(field_name("type"), "r#type");
    assert_eq!(field_name("do"), "r#do");
    assert_eq!(field_name("in"), "r#in");
    assert_eq!(field_name("Type"), "r#type");
    assert_eq!(field_name("types"), "types");
}
