//! Movies and shows: what is known of them without asking the interface,
//! and what a request for more has to name.

use vstd::prelude::*;
use vstd::string::*;

use crate::call::{Argument, ArgumentView};
use crate::model::views;
use crate::schema::ParameterLocation;
use crate::search::{SearchMovieResponse200Results, SearchTvResponse200Results};
use crate::text::{decimal, to_decimal};

verus! {

/// The identifier of an item as the interface counts it; a negative
/// number, which the interface never gives, wraps around.
pub open spec fn identifier(id: i64) -> u64 {
    id as u64
}

/// The details of a movie.
#[derive(Debug, Clone, PartialEq, Eq)]
pub struct MovieDetailsResponse200 {
    pub id: i64,
    pub poster_path: String,
}

/// Something that stands for a movie.
pub trait MovieLike {
    /// The identifier of the movie.
    fn id(&self) -> u64;

    /// The path of the poster, where it is known without asking for the
    /// details of the movie.
    fn poster_path(&self) -> Option<String>;
}

/// Something that stands for a movie or a show.
pub trait MovieOrTvLike {
    /// The identifier of the item.
    fn id(&self) -> u64;

    /// The path of the poster.
    fn poster_path(&self) -> String;
}

impl MovieLike for SearchMovieResponse200Results {
    fn id(&self) -> (id: u64)
        ensures
            id == identifier(self.id),
    {
        self.id as u64
    }

    fn poster_path(&self) -> (path: Option<String>)
        ensures
            path matches Some(text) && text@ == self.poster_path@,
    {
        Some(self.poster_path.clone())
    }
}

impl MovieLike for MovieDetailsResponse200 {
    fn id(&self) -> (id: u64)
        ensures
            id == identifier(self.id),
    {
        self.id as u64
    }

    fn poster_path(&self) -> (path: Option<String>)
        ensures
            path matches Some(text) && text@ == self.poster_path@,
    {
        Some(self.poster_path.clone())
    }
}

impl MovieOrTvLike for SearchTvResponse200Results {
    fn id(&self) -> (id: u64)
        ensures
            id == identifier(self.id),
    {
        self.id as u64
    }

    fn poster_path(&self) -> (path: String)
        ensures
            path@ == self.poster_path@,
    {
        self.poster_path.clone()
    }
}

/// A path argument called `name` with the number `value`.
pub open spec fn path_argument(name: Seq<char>, value: nat) -> ArgumentView {
    ArgumentView { name, location: ParameterLocation::Path, value: Some(decimal(value)) }
}

/// Builds the path argument `name` with the number `value`.
fn numbered(name: &str, value: u64) -> (result: Argument)
    ensures
        result@ == path_argument(name@, value as nat),
{
    Argument {
        name: name.to_owned(),
        location: ParameterLocation::Path,
        value: Some(to_decimal(value)),
    }
}

/// The arguments of the call for the details of the movie `movie_id`.
pub fn movie_details_arguments(movie_id: u64) -> (result: Vec<Argument>)
    ensures
        views(result@) == seq![path_argument("movie_id"@, movie_id as nat)],
{
    let mut result: Vec<Argument> = Vec::new();
    result.push(numbered("movie_id", movie_id));
    proof {
        assert(views(result@) =~= seq![path_argument("movie_id"@, movie_id as nat)]);
    }
    result
}

/// The arguments of the call for the season `season` of the show
/// `series_id`.
pub fn season_arguments(series_id: u64, season: u32) -> (result: Vec<Argument>)
    ensures
        views(result@) == seq![
            path_argument("series_id"@, series_id as nat),
            path_argument("season_number"@, season as nat),
        ],
{
    let mut result: Vec<Argument> = Vec::new();
    result.push(numbered("series_id", series_id));
    result.push(numbered("season_number", season as u64));
    proof {
        assert(views(result@) =~= seq![
            path_argument("series_id"@, series_id as nat),
            path_argument("season_number"@, season as nat),
        ]);
    }
    result
}

} // verus!
