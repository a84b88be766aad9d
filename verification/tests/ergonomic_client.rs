use tmdb_easy::call::{build_request, Argument, QueryParameter};
use tmdb_easy::client::{poster_decoding_error, poster_network_error, poster_url, Configuration, TmdbClient};
use tmdb_easy::error::{Error, ErrorKind};
use tmdb_easy::media::{movie_details_arguments, season_arguments, MovieDetailsResponse200, MovieLike, MovieOrTvLike};
use tmdb_easy::raw;
use tmdb_easy::schema::ParameterLocation;
use tmdb_easy::search::{
    SearchMovieBuilder, SearchMovieResponse, SearchMovieResponse200, SearchMovieResponse200Results,
    SearchTvBuilder, SearchTvResponse, SearchTvResponse200, SearchTvResponse200Results,
};

fn configuration() -> Configuration {
    Configuration {
        base_url: "https://image.tmdb.org/t/p/".to_string(),
        poster_sizes: vec!["w92".to_string(), "w500".to_string(), "original".to_string()],
    }
}

#[test]
fn poster_address_uses_the_last_size() {
    assert_eq!(poster_url(&configuration(), "/abc.jpg"), "https://image.tmdb.org/t/p/original/abc.jpg");
}

#[test]
fn new_client_has_fetched_nothing() {
    let client = TmdbClient::new("SECRET".to_string());
    assert_eq!(client.api_key, "SECRET");
    assert_eq!(client.configuration_details(), None);
    assert_eq!(client.resolve_image_path("/abc.jpg"), None);
}

#[test]
fn configuration_is_remembered_once() {
    let mut client = TmdbClient::new("SECRET".to_string());
    client.remember_configuration(configuration());
    assert_eq!(client.configuration_details(), Some(&configuration()));
    let other = Configuration { base_url: "https://other/".to_string(), poster_sizes: vec!["w1".to_string()] };
    client.remember_configuration(other);
    assert_eq!(client.configuration_details(), Some(&configuration()));
    assert_eq!(client.api_key, "SECRET");
    assert_eq!(
        client.resolve_image_path("/abc.jpg"),
        Some("https://image.tmdb.org/t/p/original/abc.jpg".to_string())
    );
}

#[test]
fn poster_errors_name_what_the_client_was_doing() {
    assert_eq!(
        poster_network_error(Some(404), "not found".to_string()),
        Error { source: "tmdb api poster_path".to_string(), error: ErrorKind::NetworkError(404, "not found".to_string()) }
    );
    assert_eq!(
        poster_network_error(None, "timeout".to_string()),
        Error { source: "tmdb api poster_path".to_string(), error: ErrorKind::NetworkError(200, "timeout".to_string()) }
    );
    assert_eq!(
        poster_decoding_error(),
        Error { source: "tmdb api poster_path".to_string(), error: ErrorKind::DecodingError }
    );
}

fn network() -> raw::ErrorKind {
    raw::ErrorKind::NetworkError("boom".to_string())
}

#[test]
fn error_with_body_is_a_parsing_failure() {
    let kind = raw::ErrorKind::DeserializationError("missing field".to_string());
    assert_eq!(
        ErrorKind::from_raw(raw::Error::new_with_text("https://x", 200, "{}", kind)),
        ErrorKind::ParsingError("Invalid response received. missing field".to_string(), "{}".to_string())
    );
    assert_eq!(
        ErrorKind::from_raw(raw::Error::new_with_text("https://x", 401, "denied", network())),
        ErrorKind::ParsingError("boom".to_string(), "denied".to_string())
    );
}

#[test]
fn status_401_is_an_authentication_failure() {
    assert_eq!(ErrorKind::from_raw(raw::Error::new("https://x", 401, network())), ErrorKind::AuthenticationError);
}

#[test]
fn other_status_is_a_network_failure() {
    assert_eq!(
        ErrorKind::from_raw(raw::Error::new("https://x", 503, network())),
        ErrorKind::NetworkError(503, "boom".to_string())
    );
    let decoding = raw::ErrorKind::DeserializationError("bad".to_string());
    assert_eq!(
        ErrorKind::from_raw(raw::Error::new("https://x", 200, decoding)),
        ErrorKind::NetworkError(200, "Invalid response received. bad".to_string())
    );
}

#[test]
fn error_without_status_is_a_request_creation_failure() {
    assert_eq!(
        ErrorKind::from_raw(raw::Error::without_context(network())),
        ErrorKind::RequestCreationError("boom".to_string())
    );
    assert_eq!(
        ErrorKind::from_raw(raw::Error::new_with_url("https://x", network())),
        ErrorKind::RequestCreationError("boom".to_string())
    );
}

#[test]
fn client_error_keeps_its_source() {
    assert_eq!(
        Error::from_raw("search-movie", raw::Error::new("https://x", 401, network())),
        Error { source: "search-movie".to_string(), error: ErrorKind::AuthenticationError }
    );
}

#[test]
fn client_errors_are_shown_with_their_source() {
    assert_eq!(
        ErrorKind::NetworkError(404, "gone".to_string()).message(),
        "Network error: StatusCode 404 Not Found: gone"
    );
    assert_eq!(
        ErrorKind::NetworkError(299, "odd".to_string()).message(),
        "Network error: StatusCode 299 <unknown status code>: odd"
    );
    assert_eq!(ErrorKind::NetworkError(42, "odd".to_string()).message(), "Network error: StatusCode 42: odd");
    assert_eq!(ErrorKind::AuthenticationError.message(), "Problem authenticating, check your api key");
    assert_eq!(
        ErrorKind::ParsingError("bad".to_string(), "{}".to_string()).message(),
        "Problem parsing answer from api, update dependency.\n\nOriginal Error: bad\nSource text: {}"
    );
    assert_eq!(ErrorKind::DecodingError.message(), "Problem reading image data");
    assert_eq!(
        ErrorKind::RequestCreationError("bad url".to_string()).message(),
        "Failed creating a valid reqwest Request: bad url"
    );
    assert_eq!(
        Error { source: "search".to_string(), error: ErrorKind::DecodingError }.message(),
        "Error in search: Problem reading image data\n"
    );
}

#[test]
fn search_starts_without_options() {
    let client = TmdbClient::new("SECRET".to_string());
    let builder = client.search_for_movie("Fall".to_string());
    assert_eq!(builder, SearchMovieBuilder::new("Fall".to_string()));
    assert_eq!(builder.query, "Fall");
    assert_eq!(builder.parameters.year, None);
    assert_eq!(builder.parameters.language, None);
    assert_eq!(builder.parameters.page, None);
    assert_eq!(client.search_for_tv("Dark".to_string()), SearchTvBuilder::new("Dark".to_string()));
}

#[test]
fn builder_sets_one_option_at_a_time() {
    let builder = SearchMovieBuilder::new("Fall".to_string()).with_year(2022).with_language("de-DE").with_page(3);
    assert_eq!(builder.query, "Fall");
    assert_eq!(builder.parameters.year, Some("2022".to_string()));
    assert_eq!(builder.parameters.language, Some("de-DE".to_string()));
    assert_eq!(builder.parameters.page, Some(3));
    let shows = SearchTvBuilder::new("Dark".to_string()).with_year(2017).with_language("de").with_page(2);
    assert_eq!(shows.parameters.year, Some(2017));
    assert_eq!(shows.parameters.language, Some("de".to_string()));
    assert_eq!(shows.parameters.page, Some(2));
}

#[test]
fn search_for_fall_sends_the_credential_and_the_query_only() {
    let client = TmdbClient::new("SECRET".to_string());
    let arguments = client.search_for_movie("Fall".to_string()).search_arguments();
    let request = build_request("https://api.themoviedb.org", "/3/search/movie", &client.api_key, &arguments);
    assert_eq!(
        request.query,
        vec![
            QueryParameter { name: "api_key".to_string(), value: "SECRET".to_string() },
            QueryParameter { name: "query".to_string(), value: "Fall".to_string() },
        ]
    );
}

#[test]
fn search_arguments_carry_the_options_that_were_set() {
    let arguments = SearchMovieBuilder::new("Fall".to_string()).with_year(2022).with_page(-1).search_arguments();
    let expected = vec![
        Argument { name: "query".to_string(), location: ParameterLocation::Query, value: Some("Fall".to_string()) },
        Argument { name: "language".to_string(), location: ParameterLocation::Query, value: None },
        Argument { name: "page".to_string(), location: ParameterLocation::Query, value: Some("-1".to_string()) },
        Argument { name: "year".to_string(), location: ParameterLocation::Query, value: Some("2022".to_string()) },
    ];
    assert_eq!(arguments, expected);
    let shows = SearchTvBuilder::new("Dark".to_string()).with_year(2017).search_arguments();
    assert_eq!(shows[3].value, Some("2017".to_string()));
    assert_eq!(shows[2].value, None);
}

fn movie(id: i64) -> SearchMovieResponse200Results {
    SearchMovieResponse200Results { id, poster_path: format!("/{id}.jpg") }
}

fn movies(page: i64, total_pages: i64) -> SearchMovieResponse {
    SearchMovieResponse {
        builder: SearchMovieBuilder::new("Fall".to_string()).with_year(2022),
        results: SearchMovieResponse200 { page, results: vec![movie(1), movie(2)], total_pages },
    }
}

#[test]
fn page_gives_its_results() {
    let response = movies(1, 3);
    assert_eq!(response.current_page(), &vec![movie(1), movie(2)]);
    assert_eq!(response.index(1), &movie(2));
}

#[test]
fn next_page_asks_for_the_following_page() {
    assert_eq!(
        movies(1, 3).next_page(),
        Some(SearchMovieBuilder::new("Fall".to_string()).with_year(2022).with_page(2))
    );
    assert_eq!(movies(3, 3).next_page(), None);
    assert_eq!(movies(4, 3).next_page(), None);
    assert_eq!(movies(i64::MAX, i64::MAX).next_page(), None);
    assert_eq!(
        movies(i64::MAX - 1, i64::MAX).next_page().unwrap().parameters.page,
        Some(i64::MAX)
    );
}

#[test]
fn shows_page_like_movies() {
    let response = SearchTvResponse {
        builder: SearchTvBuilder::new("Dark".to_string()),
        results: SearchTvResponse200 {
            page: 2,
            results: vec![SearchTvResponse200Results { id: 70523, poster_path: "/dark.jpg".to_string() }],
            total_pages: 5,
        },
    };
    assert_eq!(response.current_page().len(), 1);
    assert_eq!(response.index(0).id, 70523);
    assert_eq!(response.next_page(), Some(SearchTvBuilder::new("Dark".to_string()).with_page(3)));
}

#[test]
fn results_know_their_identifier_and_poster() {
    assert_eq!(MovieLike::id(&movie(985939)), 985939);
    assert_eq!(MovieLike::poster_path(&movie(985939)), Some("/985939.jpg".to_string()));
    let details = MovieDetailsResponse200 { id: 11, poster_path: "/star.jpg".to_string() };
    assert_eq!(MovieLike::id(&details), 11);
    assert_eq!(MovieLike::poster_path(&details), Some("/star.jpg".to_string()));
    let show = SearchTvResponse200Results { id: -1, poster_path: "/dark.jpg".to_string() };
    assert_eq!(MovieOrTvLike::id(&show), u64::MAX);
    assert_eq!(MovieOrTvLike::poster_path(&show), "/dark.jpg");
}

#[test]
fn detail_calls_name_their_path_arguments() {
    assert_eq!(
        movie_details_arguments(985939),
        vec![Argument {
            name: "movie_id".to_string(),
            location: ParameterLocation::Path,
            value: Some("985939".to_string())
        }]
    );
    let request = build_request("https://x", "/3/tv/{series_id}/season/{season_number}", "K", &season_arguments(1399, 2));
    assert_eq!(request.url, "https://x/3/tv/1399/season/2");
}
