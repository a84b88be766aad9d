//! Searches: what a search asks for, and how its pages follow each other.

use vstd::prelude::*;
use vstd::string::*;

use crate::call::{Argument, ArgumentView};
use crate::model::views;
use crate::schema::ParameterLocation;
use crate::text::{decimal, to_decimal};

verus! {

/// The decimal numeral of `n`, with a minus sign where it is negative.
pub open spec fn signed_decimal(n: int) -> Seq<char> {
    if n < 0 {
        "-"@ + decimal((-n) as nat)
    } else {
        decimal(n as nat)
    }
}

/// The decimal numeral of `n`.
pub fn to_signed_decimal(n: i64) -> (result: String)
    ensures
        result@ == signed_decimal(n as int),
{
    if n < 0 {
        let magnitude: u64 = (-(n + 1)) as u64 + 1;
        let digits = to_decimal(magnitude);
        let mut result = "-".to_owned();
        result.append(digits.as_str());
        result
    } else {
        to_decimal(n as u64)
    }
}

/// A query argument called `name`.
pub open spec fn query_argument(name: Seq<char>, value: Option<Seq<char>>) -> ArgumentView {
    ArgumentView { name, location: ParameterLocation::Query, value }
}

/// The text of an optional number.
pub open spec fn optional_decimal(value: Option<i64>) -> Option<Seq<char>> {
    match value {
        Some(n) => Some(signed_decimal(n as int)),
        None => None,
    }
}

/// The text of an optional text.
pub open spec fn optional_text(value: Option<String>) -> Option<Seq<char>> {
    match value {
        Some(text) => Some(text@),
        None => None,
    }
}

/// Builds the query argument `name`.
fn argument(name: &str, value: Option<String>) -> (result: Argument)
    ensures
        result@ == query_argument(name@, optional_text(value)),
{
    Argument { name: name.to_owned(), location: ParameterLocation::Query, value }
}

/// Writes an optional number in decimal.
fn number(value: Option<i64>) -> (result: Option<String>)
    ensures
        optional_text(result) == optional_decimal(value),
{
    match value {
        Some(n) => Some(to_signed_decimal(n)),
        None => None,
    }
}

/// Copies an optional text.
fn copy_of(value: &Option<String>) -> (result: Option<String>)
    ensures
        optional_text(result) == optional_text(*value),
{
    match value {
        Some(text) => Some(text.clone()),
        None => None,
    }
}

/// One movie of a search result.
#[derive(Debug, Clone, PartialEq, Eq)]
pub struct SearchMovieResponse200Results {
    pub id: i64,
    pub poster_path: String,
}

/// One page of movies.
#[derive(Debug, Clone, PartialEq, Eq)]
pub struct SearchMovieResponse200 {
    pub page: i64,
    pub results: Vec<SearchMovieResponse200Results>,
    pub total_pages: i64,
}

/// The optional parameters of a movie search.
#[derive(Debug, Clone, PartialEq, Eq)]
pub struct SearchMovieParameter {
    pub language: Option<String>,
    pub page: Option<i64>,
    pub year: Option<String>,
}

/// A movie search in the making.
#[derive(Debug, Clone, PartialEq, Eq)]
pub struct SearchMovieBuilder {
    pub query: String,
    pub parameters: SearchMovieParameter,
}

impl SearchMovieBuilder {
    /// A search for `query` with every optional parameter absent.
    pub fn new(query: String) -> (builder: SearchMovieBuilder)
        ensures
            builder.query == query,
            builder.parameters.language is None,
            builder.parameters.page is None,
            builder.parameters.year is None,
    {
        SearchMovieBuilder {
            query,
            parameters: SearchMovieParameter { language: None, page: None, year: None },
        }
    }

    /// Restricts the search to the releases of `year`.
    pub fn with_year(self, year: u16) -> (builder: SearchMovieBuilder)
        ensures
            builder.query == self.query,
            builder.parameters.language == self.parameters.language,
            builder.parameters.page == self.parameters.page,
            builder.parameters.year matches Some(text) && text@ == decimal(year as nat),
    {
        let mut builder = self;
        builder.parameters.year = Some(to_decimal(year as u64));
        builder
    }

    /// Asks for results in `language`.
    pub fn with_language(self, language: &str) -> (builder: SearchMovieBuilder)
        ensures
            builder.query == self.query,
            builder.parameters.language matches Some(text) && text@ == language@,
            builder.parameters.page == self.parameters.page,
            builder.parameters.year == self.parameters.year,
    {
        let mut builder = self;
        builder.parameters.language = Some(language.to_owned());
        builder
    }

    /// Asks for the page `page` of the results.
    pub fn with_page(self, page: i64) -> (builder: SearchMovieBuilder)
        ensures
            builder.query == self.query,
            builder.parameters.language == self.parameters.language,
            builder.parameters.page == Some(page),
            builder.parameters.year == self.parameters.year,
    {
        let mut builder = self;
        builder.parameters.page = Some(page);
        builder
    }

    /// The arguments this search sends.
    pub open spec fn arguments(self) -> Seq<ArgumentView> {
        seq![
            query_argument("query"@, Some(self.query@)),
            query_argument("language"@, optional_text(self.parameters.language)),
            query_argument("page"@, optional_decimal(self.parameters.page)),
            query_argument("year"@, optional_text(self.parameters.year)),
        ]
    }

    /// The arguments of the call that performs this search: the query,
    /// then the optional parameters, absent unless they were set.
    pub fn search_arguments(&self) -> (result: Vec<Argument>)
        ensures
            views(result@) == self.arguments(),
    {
        let mut result: Vec<Argument> = Vec::new();
        result.push(argument("query", Some(self.query.clone())));
        result.push(argument("language", copy_of(&self.parameters.language)));
        result.push(argument("page", number(self.parameters.page)));
        result.push(argument("year", copy_of(&self.parameters.year)));
        proof {
            assert(views(result@) =~= self.arguments());
        }
        result
    }
}

/// A page of movies with the search that gave it.
#[derive(Debug, Clone, PartialEq, Eq)]
pub struct SearchMovieResponse {
    pub builder: SearchMovieBuilder,
    pub results: SearchMovieResponse200,
}

impl SearchMovieResponse {
    /// The movies of this page.
    pub fn current_page(&self) -> (page: &Vec<SearchMovieResponse200Results>)
        ensures
            page == self.results.results,
    {
        &self.results.results
    }

    /// The movie at `index` on this page.
    pub fn index(&self, index: usize) -> (movie: &SearchMovieResponse200Results)
        requires
            index < self.results.results@.len(),
        ensures
            *movie == self.results.results@[index as int],
    {
        &self.results.results[index]
    }

    /// The search for the page after this one; none behind the last page.
    pub fn next_page(self) -> (next: Option<SearchMovieBuilder>)
        ensures
            next is None <==> self.results.page >= self.results.total_pages,
            next matches Some(builder) ==> builder.query == self.builder.query
                && builder.parameters.language == self.builder.parameters.language
                && builder.parameters.year == self.builder.parameters.year
                && builder.parameters.page == Some((self.results.page + 1) as i64),
    {
        if self.results.page >= self.results.total_pages {
            None
        } else {
            let page = self.results.page + 1;
            Some(self.builder.with_page(page))
        }
    }
}

/// One show of a search result.
#[derive(Debug, Clone, PartialEq, Eq)]
pub struct SearchTvResponse200Results {
    pub id: i64,
    pub poster_path: String,
}

/// One page of shows.
#[derive(Debug, Clone, PartialEq, Eq)]
pub struct SearchTvResponse200 {
    pub page: i64,
    pub results: Vec<SearchTvResponse200Results>,
    pub total_pages: i64,
}

/// The optional parameters of a show search.
#[derive(Debug, Clone, PartialEq, Eq)]
pub struct SearchTvParameter {
    pub language: Option<String>,
    pub page: Option<i64>,
    pub year: Option<i64>,
}

/// A show search in the making.
#[derive(Debug, Clone, PartialEq, Eq)]
pub struct SearchTvBuilder {
    pub query: String,
    pub parameters: SearchTvParameter,
}

impl SearchTvBuilder {
    /// A search for `query` with every optional parameter absent.
    pub fn new(query: String) -> (builder: SearchTvBuilder)
        ensures
            builder.query == query,
            builder.parameters.language is None,
            builder.parameters.page is None,
            builder.parameters.year is None,
    {
        SearchTvBuilder {
            query,
            parameters: SearchTvParameter { language: None, page: None, year: None },
        }
    }

    /// Restricts the search to the shows first aired in `year`.
    pub fn with_year(self, year: u16) -> (builder: SearchTvBuilder)
        ensures
            builder.query == self.query,
            builder.parameters.language == self.parameters.language,
            builder.parameters.page == self.parameters.page,
            builder.parameters.year == Some(year as i64),
    {
        let mut builder = self;
        builder.parameters.year = Some(year as i64);
        builder
    }

    /// Asks for results in `language`.
    pub fn with_language(self, language: &str) -> (builder: SearchTvBuilder)
        ensures
            builder.query == self.query,
            builder.parameters.language matches Some(text) && text@ == language@,
            builder.parameters.page == self.parameters.page,
            builder.parameters.year == self.parameters.year,
    {
        let mut builder = self;
        builder.parameters.language = Some(language.to_owned());
        builder
    }

    /// Asks for the page `page` of the results.
    pub fn with_page(self, page: i64) -> (builder: SearchTvBuilder)
        ensures
            builder.query == self.query,
            builder.parameters.language == self.parameters.language,
            builder.parameters.page == Some(page),
            builder.parameters.year == self.parameters.year,
    {
        let mut builder = self;
        builder.parameters.page = Some(page);
        builder
    }

    /// The arguments this search sends.
    pub open spec fn arguments(self) -> Seq<ArgumentView> {
        seq![
            query_argument("query"@, Some(self.query@)),
            query_argument("language"@, optional_text(self.parameters.language)),
            query_argument("page"@, optional_decimal(self.parameters.page)),
            query_argument("year"@, optional_decimal(self.parameters.year)),
        ]
    }

    /// The arguments of the call that performs this search: the query,
    /// then the optional parameters, absent unless they were set.
    pub fn search_arguments(&self) -> (result: Vec<Argument>)
        ensures
            views(result@) == self.arguments(),
    {
        let mut result: Vec<Argument> = Vec::new();
        result.push(argument("query", Some(self.query.clone())));
        result.push(argument("language", copy_of(&self.parameters.language)));
        result.push(argument("page", number(self.parameters.page)));
        result.push(argument("year", number(self.parameters.year)));
        proof {
            assert(views(result@) =~= self.arguments());
        }
        result
    }
}

/// A page of shows with the search that gave it.
#[derive(Debug, Clone, PartialEq, Eq)]
pub struct SearchTvResponse {
    pub builder: SearchTvBuilder,
    pub results: SearchTvResponse200,
}

impl SearchTvResponse {
    /// The shows of this page.
    pub fn current_page(&self) -> (page: &Vec<SearchTvResponse200Results>)
        ensures
            page == self.results.results,
    {
        &self.results.results
    }

    /// The show at `index` on this page.
    pub fn index(&self, index: usize) -> (show: &SearchTvResponse200Results)
        requires
            index < self.results.results@.len(),
        ensures
            *show == self.results.results@[index as int],
    {
        &self.results.results[index]
    }

    /// The search for the page after this one; none behind the last page.
    pub fn next_page(self) -> (next: Option<SearchTvBuilder>)
        ensures
            next is None <==> self.results.page >= self.results.total_pages,
            next matches Some(builder) ==> builder.query == self.builder.query
                && builder.parameters.language == self.builder.parameters.language
                && builder.parameters.year == self.builder.parameters.year
                && builder.parameters.page == Some((self.results.page + 1) as i64),
    {
        if self.results.page >= self.results.total_pages {
            None
        } else {
            let page = self.results.page + 1;
            Some(self.builder.with_page(page))
        }
    }
}

} // verus!
