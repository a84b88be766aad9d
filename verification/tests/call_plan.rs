use tmdb_easy::call::{build_request, decodes_as_success, Argument, CallState, QueryParameter};
use tmdb_easy::raw::{Error, ErrorContext, ErrorKind};
use tmdb_easy::schema::ParameterLocation;

fn query(name: &str, value: Option<&str>) -> Argument {
    Argument { name: name.to_string(), location: ParameterLocation::Query, value: value.map(|v| v.to_string()) }
}

fn path(name: &str, value: Option<&str>) -> Argument {
    Argument { name: name.to_string(), location: ParameterLocation::Path, value: value.map(|v| v.to_string()) }
}

fn pair(name: &str, value: &str) -> QueryParameter {
    QueryParameter { name: name.to_string(), value: value.to_string() }
}

#[test]
fn absent_options_are_not_sent() {
    let request = build_request(
        "https://api.themoviedb.org",
        "/3/search/movie",
        "SECRET",
        &vec![query("query", Some("Fall")), query("year", None), query("page", None)],
    );
    assert_eq!(request.url, "https://api.themoviedb.org/3/search/movie");
    assert_eq!(request.query, vec![pair("api_key", "SECRET"), pair("query", "Fall")]);
}

#[test]
fn present_options_are_sent_in_order_behind_the_credential() {
    let request = build_request(
        "https://api.themoviedb.org",
        "/3/search/movie",
        "SECRET",
        &vec![query("query", Some("Fall")), query("year", Some("2022")), query("page", Some("2"))],
    );
    assert_eq!(
        request.query,
        vec![pair("api_key", "SECRET"), pair("query", "Fall"), pair("year", "2022"), pair("page", "2")]
    );
}

#[test]
fn empty_value_is_still_a_value() {
    let request = build_request("https://x", "/p", "K", &vec![query("query", Some(""))]);
    assert_eq!(request.query, vec![pair("api_key", "K"), pair("query", "")]);
}

#[test]
fn call_without_arguments_sends_the_credential_only() {
    let request = build_request("https://x", "/3/configuration", "K", &Vec::new());
    assert_eq!(request.url, "https://x/3/configuration");
    assert_eq!(request.query, vec![pair("api_key", "K")]);
}

#[test]
fn path_arguments_fill_their_placeholders() {
    let request = build_request(
        "https://x",
        "/3/tv/{series_id}/season/{season_number}",
        "K",
        &vec![path("series_id", Some("1399")), path("season_number", Some("1")), query("language", Some("en"))],
    );
    assert_eq!(request.url, "https://x/3/tv/1399/season/1");
    assert_eq!(request.query, vec![pair("api_key", "K"), pair("language", "en")]);
}

#[test]
fn path_argument_without_value_leaves_its_placeholder() {
    let request = build_request("https://x", "/3/movie/{movie_id}", "K", &vec![path("movie_id", None)]);
    assert_eq!(request.url, "https://x/3/movie/{movie_id}");
}

fn network() -> ErrorKind {
    ErrorKind::NetworkError("connection refused".to_string())
}

#[test]
fn failure_to_build_the_request_has_no_context() {
    let error = CallState::Building.fail(network());
    assert_eq!(error.context, ErrorContext { url: None, response_status: None, response_text: None });
    assert_eq!(error.kind, network());
    assert_eq!(error, Error::without_context(network()));
}

#[test]
fn transport_failure_carries_the_address_only() {
    let state = CallState::Sending { url: "https://x/3/search/movie?api_key=K".to_string() };
    let error = state.fail(network());
    assert_eq!(error.context.url.as_deref(), Some("https://x/3/search/movie?api_key=K"));
    assert_eq!(error.context.response_status, None);
    assert_eq!(error.context.response_text, None);
    assert_eq!(error, Error::new_with_url("https://x/3/search/movie?api_key=K", network()));
}

#[test]
fn failure_to_read_the_body_carries_address_and_status() {
    let state = CallState::Reading { url: "https://x/a".to_string(), status: 502 };
    let error = state.fail(network());
    assert_eq!(
        error.context,
        ErrorContext { url: Some("https://x/a".to_string()), response_status: Some(502), response_text: None }
    );
    assert_eq!(error, Error::new("https://x/a", 502, network()));
}

#[test]
fn failure_to_decode_carries_address_status_and_body() {
    let kind = ErrorKind::DeserializationError("expected value at line 1 column 1".to_string());
    let state = CallState::Decoding { url: "https://x/a".to_string(), status: 200, text: "<html>".to_string() };
    let error = state.fail(kind.clone());
    assert_eq!(
        error.context,
        ErrorContext {
            url: Some("https://x/a".to_string()),
            response_status: Some(200),
            response_text: Some("<html>".to_string())
        }
    );
    assert_eq!(error.kind, kind);
    assert_eq!(error, Error::new_with_text("https://x/a", 200, "<html>", kind));
}

#[test]
fn errors_are_shown_by_their_kind() {
    assert_eq!(network().message(), "connection refused");
    assert_eq!(
        ErrorKind::DeserializationError("missing field".to_string()).message(),
        "Invalid response received. missing field"
    );
    assert_eq!(Error::new("https://x", 500, network()).message(), "connection refused");
}

#[test]
fn only_status_200_decodes_as_the_success() {
    assert!(decodes_as_success(200));
    assert!(!decodes_as_success(404));
    assert!(!decodes_as_success(201));
    assert!(!decodes_as_success(401));
}
