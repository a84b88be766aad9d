//! The client: its credential, its remembered configuration, and the
//! addresses of the images it resolves.

use vstd::prelude::*;
use vstd::string::*;

use crate::error::{Error, ErrorKind, KindView, OK};
use crate::search::{SearchMovieBuilder, SearchTvBuilder};

verus! {

/// What the client does while it resolves a poster.
pub open spec fn poster_source() -> Seq<char> {
    "tmdb api poster_path"@
}

/// The part of the configuration of the interface that image addresses
/// are built from.
#[derive(Debug, Clone, PartialEq, Eq)]
pub struct Configuration {
    /// The address that image paths are appended to.
    pub base_url: String,
    /// The poster sizes on offer, the largest last.
    pub poster_sizes: Vec<String>,
}

/// The address of the poster at `poster_path`, in the last size on offer.
pub open spec fn poster_address(configuration: Configuration, poster_path: Seq<char>) -> Seq<char> {
    configuration.base_url@ + configuration.poster_sizes@.last()@ + poster_path
}

/// The address of the poster at `poster_path`, in the last size on offer.
pub fn poster_url(configuration: &Configuration, poster_path: &str) -> (url: String)
    requires
        configuration.poster_sizes@.len() > 0,
    ensures
        url@ == poster_address(*configuration, poster_path@),
{
    let mut url = configuration.base_url.clone();
    url.append(configuration.poster_sizes[configuration.poster_sizes.len() - 1].as_str());
    url.append(poster_path);
    url
}

/// The error for a poster that could not be fetched. A failure without
/// response counts under the status code of success.
pub fn poster_network_error(status: Option<u16>, message: String) -> (error: Error)
    ensures
        error@.source == poster_source(),
        error@.error == KindView::NetworkError(
            match status {
                Some(code) => code,
                None => OK,
            },
            message@,
        ),
{
    let code = match status {
        Some(code) => code,
        None => OK,
    };
    Error {
        source: "tmdb api poster_path".to_owned(),
        error: ErrorKind::NetworkError(code, message),
    }
}

/// The error for a poster whose image data could not be read.
pub fn poster_decoding_error() -> (error: Error)
    ensures
        error@.source == poster_source(),
        error@.error == KindView::DecodingError,
{
    Error { source: "tmdb api poster_path".to_owned(), error: ErrorKind::DecodingError }
}

/// A client of the interface.
#[derive(Debug, Clone, PartialEq, Eq)]
pub struct TmdbClient {
    pub api_key: String,
    /// The configuration, once it has been fetched.
    pub configuration: Option<Configuration>,
}

impl TmdbClient {
    /// A client with the credential `api_key` that has fetched nothing yet.
    pub fn new(api_key: String) -> (client: TmdbClient)
        ensures
            client.api_key == api_key,
            client.configuration is None,
    {
        TmdbClient { api_key, configuration: None }
    }

    /// Starts a search for the movie `name`.
    pub fn search_for_movie(&self, name: String) -> (builder: SearchMovieBuilder)
        ensures
            builder.query == name,
            builder.parameters.language is None,
            builder.parameters.page is None,
            builder.parameters.year is None,
    {
        SearchMovieBuilder::new(name)
    }

    /// Starts a search for the show `name`.
    pub fn search_for_tv(&self, name: String) -> (builder: SearchTvBuilder)
        ensures
            builder.query == name,
            builder.parameters.language is None,
            builder.parameters.page is None,
            builder.parameters.year is None,
    {
        SearchTvBuilder::new(name)
    }

    /// The remembered configuration; none says that it has to be fetched.
    pub fn configuration_details(&self) -> (configuration: Option<&Configuration>)
        ensures
            match configuration {
                Some(known) => self.configuration == Some(*known),
                None => self.configuration is None,
            },
    {
        self.configuration.as_ref()
    }

    /// Remembers a configuration that was fetched. The first one stays: a
    /// client that knows its configuration keeps it.
    pub fn remember_configuration(&mut self, fetched: Configuration)
        ensures
            final(self).api_key == old(self).api_key,
            final(self).configuration == match old(self).configuration {
                Some(known) => Some(known),
                None => Some(fetched),
            },
    {
        if self.configuration.is_none() {
            self.configuration = Some(fetched);
        }
    }

    /// The address of the poster at `poster_path`, where the configuration
    /// is known; none says that it has to be fetched first.
    pub fn resolve_image_path(&self, poster_path: &str) -> (url: Option<String>)
        requires
            self.configuration matches Some(known) ==> known.poster_sizes@.len() > 0,
        ensures
            match url {
                Some(address) => self.configuration matches Some(known) && address@
                    == poster_address(known, poster_path@),
                None => self.configuration is None,
            },
    {
        match &self.configuration {
            Some(known) => Some(poster_url(known, poster_path)),
            None => None,
        }
    }
}

} // verus!
