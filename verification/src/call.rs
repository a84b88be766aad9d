//! The call plan at run time: what request a call issues, and what error
//! a failure at each stage gives.

use vstd::prelude::*;
use vstd::string::*;

use crate::functions::placeholder;
use crate::model::{lemma_views_push, views};
use crate::raw::{Error, ErrorContextView, ErrorKind, ErrorView};
use crate::schema::ParameterLocation;
use crate::text::{substitute, substituted};

verus! {

/// One argument of a call. The value is given as the text that is sent;
/// an optional parameter without value is absent.
#[derive(Debug, Clone, PartialEq, Eq)]
pub struct Argument {
    /// The name of the parameter in the schema.
    pub name: String,
    pub location: ParameterLocation,
    pub value: Option<String>,
}

/// The mathematical content of an [`Argument`].
pub struct ArgumentView {
    pub name: Seq<char>,
    pub location: ParameterLocation,
    pub value: Option<Seq<char>>,
}

impl View for Argument {
    type V = ArgumentView;

    open spec fn view(&self) -> ArgumentView {
        ArgumentView {
            name: self.name@,
            location: self.location,
            value: match self.value {
                Some(value) => Some(value@),
                None => None,
            },
        }
    }
}

/// One parameter of a query string.
#[derive(Debug, Clone, PartialEq, Eq)]
pub struct QueryParameter {
    pub name: String,
    pub value: String,
}

/// The mathematical content of a [`QueryParameter`].
pub struct QueryParameterView {
    pub name: Seq<char>,
    pub value: Seq<char>,
}

impl View for QueryParameter {
    type V = QueryParameterView;

    open spec fn view(&self) -> QueryParameterView {
        QueryParameterView { name: self.name@, value: self.value@ }
    }
}

/// A request for the single supported verb.
#[derive(Debug, Clone, PartialEq, Eq)]
pub struct Request {
    pub url: String,
    pub query: Vec<QueryParameter>,
}

/// The mathematical content of a [`Request`].
pub struct RequestView {
    pub url: Seq<char>,
    pub query: Seq<QueryParameterView>,
}

impl View for Request {
    type V = RequestView;

    open spec fn view(&self) -> RequestView {
        RequestView { url: self.url@, query: views(self.query@) }
    }
}

/// The path template with the values of the first `n` arguments filled in.
/// Only path arguments that have a value take part.
pub open spec fn filled_path(template: Seq<char>, arguments: Seq<ArgumentView>, n: nat) -> Seq<
    char,
>
    decreases n,
{
    if n == 0 || n > arguments.len() {
        template
    } else {
        let before = filled_path(template, arguments, (n - 1) as nat);
        let argument = arguments[n - 1];
        match argument.value {
            Some(value) => if argument.location == ParameterLocation::Path {
                substituted(before, placeholder(argument.name), value)
            } else {
                before
            },
            None => before,
        }
    }
}

/// The query parameters for the first `n` arguments: the credential first,
/// then every query argument that has a value, in order. An absent
/// argument is left out, never sent empty.
pub open spec fn query_of(api_key: Seq<char>, arguments: Seq<ArgumentView>, n: nat) -> Seq<
    QueryParameterView,
>
    decreases n,
{
    if n == 0 || n > arguments.len() {
        seq![QueryParameterView { name: "api_key"@, value: api_key }]
    } else {
        let before = query_of(api_key, arguments, (n - 1) as nat);
        let argument = arguments[n - 1];
        match argument.value {
            Some(value) => if argument.location == ParameterLocation::Query {
                before.push(QueryParameterView { name: argument.name, value })
            } else {
                before
            },
            None => before,
        }
    }
}

/// The request of a call.
pub open spec fn requested(
    base_url: Seq<char>,
    template: Seq<char>,
    api_key: Seq<char>,
    arguments: Seq<ArgumentView>,
) -> RequestView {
    RequestView {
        url: base_url + filled_path(template, arguments, arguments.len()),
        query: query_of(api_key, arguments, arguments.len()),
    }
}

/// Builds the request of a call to the path `template` under `base_url`.
pub fn build_request(base_url: &str, template: &str, api_key: &str, arguments: &Vec<Argument>) -> (request:
    Request)
    ensures
        request@ == requested(base_url@, template@, api_key@, views(arguments@)),
{
    let ghost models = views(arguments@);
    let mut path = template.to_owned();
    let mut query: Vec<QueryParameter> = Vec::new();
    query.push(QueryParameter { name: "api_key".to_owned(), value: api_key.to_owned() });
    proof {
        assert(views(query@) =~= query_of(api_key@, models, 0));
    }
    let mut i: usize = 0;
    while i < arguments.len()
        invariant
            i <= arguments.len(),
            models == views(arguments@),
            path@ == filled_path(template@, models, i as nat),
            views(query@) == query_of(api_key@, models, i as nat),
        decreases arguments.len() - i,
    {
        let argument = &arguments[i];
        proof {
            assert(models[i as int] == argument@);
        }
        match &argument.value {
            Some(value) => {
                if argument.location.path() {
                    let mut from = "{".to_owned();
                    from.append(argument.name.as_str());
                    from.append("}");
                    path = substitute(path.as_str(), from.as_str(), value.as_str());
                } else {
                    let own = QueryParameter { name: argument.name.clone(), value: value.clone() };
                    proof {
                        lemma_views_push(query@, own);
                    }
                    query.push(own);
                }
            },
            None => {},
        }
        i += 1;
    }
    proof {
        assert(models.len() == arguments@.len());
    }
    let mut url = base_url.to_owned();
    url.append(path.as_str());
    Request { url, query }
}

/// How far a call has come.
#[derive(Debug, Clone, PartialEq, Eq)]
pub enum CallState {
    /// The request is being built.
    Building,
    /// The request was built and is being sent to `url`.
    Sending { url: String },
    /// The response arrived with `status`; its body is being read.
    Reading { url: String, status: u16 },
    /// The body `text` was read and is being decoded.
    Decoding { url: String, status: u16, text: String },
}

impl CallState {
    /// The context known in this state.
    pub open spec fn context(self) -> ErrorContextView {
        match self {
            CallState::Building => ErrorContextView {
                url: None,
                response_status: None,
                response_text: None,
            },
            CallState::Sending { url } => ErrorContextView {
                url: Some(url@),
                response_status: None,
                response_text: None,
            },
            CallState::Reading { url, status } => ErrorContextView {
                url: Some(url@),
                response_status: Some(status),
                response_text: None,
            },
            CallState::Decoding { url, status, text } => ErrorContextView {
                url: Some(url@),
                response_status: Some(status),
                response_text: Some(text@),
            },
        }
    }

    /// The number of stages that lie behind this state.
    pub open spec fn stage(self) -> nat {
        match self {
            CallState::Building => 0,
            CallState::Sending { .. } => 1,
            CallState::Reading { .. } => 2,
            CallState::Decoding { .. } => 3,
        }
    }

    /// The error of a failure in this state: it carries all the context
    /// that the stages passed so far have given, and no more.
    pub fn fail(&self, kind: ErrorKind) -> (error: Error)
        ensures
            error@ == (ErrorView { context: self.context(), kind: kind@ }),
            error@.context.tier() == self.stage(),
            error@.context.progressive(),
    {
        match self {
            CallState::Building => Error::without_context(kind),
            CallState::Sending { url } => Error::new_with_url(url.as_str(), kind),
            CallState::Reading { url, status } => Error::new(url.as_str(), *status, kind),
            CallState::Decoding { url, status, text } => Error::new_with_text(
                url.as_str(),
                *status,
                text.as_str(),
                kind,
            ),
        }
    }
}

/// Whether the body of a response with `status` decodes as the success of
/// a call that answers with a success or an alternate. Any other status
/// decodes as the alternate.
pub fn decodes_as_success(status: u16) -> (r: bool)
    ensures
        r == (status == 200),
{
    status == 200
}

} // verus!
