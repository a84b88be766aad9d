//! The errors of a generated call, tiered by how much of the exchange was
//! known when it failed.

use vstd::prelude::*;
use vstd::string::*;

verus! {

/// What went wrong, with the message of the underlying failure.
#[derive(Debug, Clone, PartialEq, Eq)]
pub enum ErrorKind {
    /// The request could not be built or sent, or the body not be read.
    NetworkError(String),
    /// The body could not be decoded.
    DeserializationError(String),
}

/// The mathematical content of an [`ErrorKind`].
pub enum ErrorKindView {
    NetworkError(Seq<char>),
    DeserializationError(Seq<char>),
}

impl View for ErrorKind {
    type V = ErrorKindView;

    open spec fn view(&self) -> ErrorKindView {
        match self {
            ErrorKind::NetworkError(message) => ErrorKindView::NetworkError(message@),
            ErrorKind::DeserializationError(message) => ErrorKindView::DeserializationError(
                message@,
            ),
        }
    }
}

/// The text an error kind is shown as.
pub open spec fn kind_message(kind: ErrorKindView) -> Seq<char> {
    match kind {
        ErrorKindView::NetworkError(message) => message,
        ErrorKindView::DeserializationError(message) => "Invalid response received. "@ + message,
    }
}

impl ErrorKind {
    /// The text this kind is shown as.
    pub fn message(&self) -> (result: String)
        ensures
            result@ == kind_message(self@),
    {
        match self {
            ErrorKind::NetworkError(message) => message.clone(),
            ErrorKind::DeserializationError(message) => {
                let mut result = "Invalid response received. ".to_owned();
                result.append(message.as_str());
                result
            },
        }
    }
}

/// What was known of the exchange when it failed.
#[derive(Debug, Clone, PartialEq, Eq)]
pub struct ErrorContext {
    pub url: Option<String>,
    pub response_status: Option<u16>,
    pub response_text: Option<String>,
}

/// The mathematical content of an [`ErrorContext`].
pub struct ErrorContextView {
    pub url: Option<Seq<char>>,
    pub response_status: Option<u16>,
    pub response_text: Option<Seq<char>>,
}

impl View for ErrorContext {
    type V = ErrorContextView;

    open spec fn view(&self) -> ErrorContextView {
        ErrorContextView {
            url: match self.url {
                Some(url) => Some(url@),
                None => None,
            },
            response_status: self.response_status,
            response_text: match self.response_text {
                Some(text) => Some(text@),
                None => None,
            },
        }
    }
}

impl ErrorContextView {
    /// How much is known: nothing, the address, also the status, or also
    /// the body. A context that holds a later item without the earlier
    /// ones counts by its first gap.
    pub open spec fn tier(self) -> nat {
        if self.url is None {
            0
        } else if self.response_status is None {
            1
        } else if self.response_text is None {
            2
        } else {
            3
        }
    }

    /// Whether the context grew stage by stage: a body only with a status,
    /// a status only with an address.
    pub open spec fn progressive(self) -> bool {
        &&& self.response_text is Some ==> self.response_status is Some
        &&& self.response_status is Some ==> self.url is Some
    }
}

/// The failure of a generated call.
#[derive(Debug, Clone, PartialEq, Eq)]
pub struct Error {
    pub context: ErrorContext,
    pub kind: ErrorKind,
}

/// The mathematical content of an [`Error`].
pub struct ErrorView {
    pub context: ErrorContextView,
    pub kind: ErrorKindView,
}

impl View for Error {
    type V = ErrorView;

    open spec fn view(&self) -> ErrorView {
        ErrorView { context: self.context@, kind: self.kind@ }
    }
}

impl Error {
    /// A failure before the request existed: nothing is known.
    pub fn without_context(kind: ErrorKind) -> (error: Error)
        ensures
            error@.kind == kind@,
            error@.context == (ErrorContextView {
                url: None,
                response_status: None,
                response_text: None,
            }),
            error@.context.tier() == 0,
            error@.context.progressive(),
    {
        Error {
            context: ErrorContext { url: None, response_status: None, response_text: None },
            kind,
        }
    }

    /// A failure to send the request: the address is known.
    pub fn new_with_url(url: &str, kind: ErrorKind) -> (error: Error)
        ensures
            error@.kind == kind@,
            error@.context == (ErrorContextView {
                url: Some(url@),
                response_status: None,
                response_text: None,
            }),
            error@.context.tier() == 1,
            error@.context.progressive(),
    {
        Error {
            context: ErrorContext {
                url: Some(url.to_owned()),
                response_status: None,
                response_text: None,
            },
            kind,
        }
    }

    /// A failure to read the body: address and status are known.
    pub fn new(url: &str, response_status: u16, kind: ErrorKind) -> (error: Error)
        ensures
            error@.kind == kind@,
            error@.context == (ErrorContextView {
                url: Some(url@),
                response_status: Some(response_status),
                response_text: None,
            }),
            error@.context.tier() == 2,
            error@.context.progressive(),
    {
        Error {
            context: ErrorContext {
                url: Some(url.to_owned()),
                response_status: Some(response_status),
                response_text: None,
            },
            kind,
        }
    }

    /// A failure to decode the body: address, status and body are known.
    pub fn new_with_text(url: &str, response_status: u16, text: &str, kind: ErrorKind) -> (error:
        Error)
        ensures
            error@.kind == kind@,
            error@.context == (ErrorContextView {
                url: Some(url@),
                response_status: Some(response_status),
                response_text: Some(text@),
            }),
            error@.context.tier() == 3,
            error@.context.progressive(),
    {
        Error {
            context: ErrorContext {
                url: Some(url.to_owned()),
                response_status: Some(response_status),
                response_text: Some(text.to_owned()),
            },
            kind,
        }
    }

    /// The text this error is shown as: that of its kind.
    pub fn message(&self) -> (result: String)
        ensures
            result@ == kind_message(self@.kind),
    {
        self.kind.message()
    }
}

} // verus!
